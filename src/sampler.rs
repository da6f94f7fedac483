use std::sync::mpsc::Receiver;
use vstd::arithmetic::div_mod::{
    lemma_div_is_ordered, lemma_div_multiples_vanish, lemma_fundamental_div_mod, lemma_mod_pos_bound,
};
use vstd::prelude::*;

verus! {

/// Number of equal slices the sample buffer is cut into.
pub const DEFAULT_SLICES: usize = 16;

/// Most commands taken from the channel by one call of `Sampler::tick`.
pub const DRAIN_CAP: usize = 4;

/// Fixed-point scale of positions and speeds: `UNIT` stands for one sample
/// of position, or for playback at the recorded speed.
pub const UNIT: u32 = 65536;

/// Direction in which a slice is played.
#[derive(Debug, Clone, Copy, PartialEq, Eq, Structural)]
pub enum Direction {
    Forward,
    Backward,
}

/// What one step of the sequence plays: a slice, a speed and a direction.
/// The pitch is a speed in units of `1 / UNIT` samples per frame.
#[derive(Debug, Clone, Copy, PartialEq, Eq, Structural)]
pub struct StepBuilder {
    slice: usize,
    pitch: u32,
    direction: Direction,
}

impl Default for StepBuilder {
    fn default() -> (r: Self)
        ensures
            r == StepBuilder::spec_default(),
            r.spec_slice() == 0,
            r.spec_pitch() == UNIT,
            r.spec_direction() == Direction::Forward,
    {
        StepBuilder { slice: 0, pitch: UNIT, direction: Direction::Forward }
    }
}

impl StepBuilder {
    /// Slice 0, played forward at the recorded speed.
    pub closed spec fn spec_default() -> StepBuilder {
        StepBuilder { slice: 0, pitch: UNIT, direction: Direction::Forward }
    }

    pub closed spec fn spec_with_slice(self, slice: usize) -> StepBuilder {
        StepBuilder { slice, ..self }
    }

    pub closed spec fn spec_with_direction(self, direction: Direction) -> StepBuilder {
        StepBuilder { direction, ..self }
    }

    pub closed spec fn spec_slice(&self) -> usize {
        self.slice
    }

    pub closed spec fn spec_pitch(&self) -> u32 {
        self.pitch
    }

    pub closed spec fn spec_direction(&self) -> Direction {
        self.direction
    }

    #[verifier::when_used_as_spec(spec_slice)]
    pub fn slice(&self) -> (r: usize)
        ensures
            r == self.spec_slice(),
    {
        self.slice
    }

    pub fn with_slice(self, slice: usize) -> (r: Self)
        ensures
            r == self.spec_with_slice(slice),
            r.spec_slice() == slice,
            r.spec_pitch() == self.spec_pitch(),
            r.spec_direction() == self.spec_direction(),
    {
        StepBuilder { slice, ..self }
    }

    #[verifier::when_used_as_spec(spec_pitch)]
    pub fn pitch(&self) -> (r: u32)
        ensures
            r == self.spec_pitch(),
    {
        self.pitch
    }

    pub fn with_pitch(self, pitch: u32) -> (r: Self)
        ensures
            r.spec_slice() == self.spec_slice(),
            r.spec_pitch() == pitch,
            r.spec_direction() == self.spec_direction(),
    {
        StepBuilder { pitch, ..self }
    }

    #[verifier::when_used_as_spec(spec_direction)]
    pub fn direction(&self) -> (r: Direction)
        ensures
            r == self.spec_direction(),
    {
        self.direction
    }

    pub fn with_direction(self, direction: Direction) -> (r: Self)
        ensures
            r == self.spec_with_direction(direction),
            r.spec_slice() == self.spec_slice(),
            r.spec_pitch() == self.spec_pitch(),
            r.spec_direction() == direction,
    {
        StepBuilder { direction, ..self }
    }
}

/// A command for the playback engine: start a slice, or stop.
#[derive(Debug, Clone, Copy, PartialEq, Eq, Structural)]
pub enum Step {
    On(StepBuilder),
    Off,
}

impl Default for Step {
    fn default() -> (r: Self)
        ensures
            r == Step::Off,
    {
        Step::Off
    }
}

/// `n` when it lies in `[lo, hi]`; past `hi` it comes back to `lo`, below `lo` to `hi`.
pub open spec fn wrap_spec(n: int, lo: int, hi: int) -> int {
    if n > hi {
        lo
    } else if n < lo {
        hi
    } else {
        n
    }
}

/// Brings an index that left `[lo, hi]` back to the other end of that range.
pub fn wrap(n: usize, lo: usize, hi: usize) -> (r: usize)
    ensures
        r as int == wrap_spec(n as int, lo as int, hi as int),
{
    if n > hi {
        lo
    } else if n < lo {
        hi
    } else {
        n
    }
}

/// Slice a trigger names once clamped to the slices that exist.
pub open spec fn clamp_slice(k: int) -> int {
    if k < DEFAULT_SLICES as int {
        k
    } else {
        DEFAULT_SLICES as int - 1
    }
}

/// Sample at which playing slice `k` starts, in the given direction: its first
/// sample going forward, its last going backward.
pub open spec fn trigger_sample(k: int, slice_len: int, direction: Direction) -> int {
    match direction {
        Direction::Forward => k * slice_len,
        Direction::Backward => if slice_len > 0 {
            k * slice_len + slice_len - 1
        } else {
            k * slice_len
        },
    }
}

/// Whether sample index `p` lies within slice `k`, as seen in the direction of travel:
/// `[start, end)` going forward, `(start, end]` going backward.
pub open spec fn in_slice(p: int, k: int, slice_len: int, direction: Direction) -> bool {
    let start = k * slice_len;
    let end = start + slice_len;
    match direction {
        Direction::Forward => start <= p && p < end,
        Direction::Backward => start < p && p <= end,
    }
}

/// Last position the playhead can take in a buffer of `len` samples, in `1 / UNIT` samples.
pub open spec fn last_pos(len: int) -> int {
    if len == 0 {
        0
    } else {
        (len - 1) * UNIT as int
    }
}

/// The two samples a frame blends and the weight of the second, in `1 / UNIT`:
/// the frame's value is `samples[fst] * (UNIT - weight) / UNIT + samples[snd] * weight / UNIT`.
#[derive(Debug, Clone, Copy, PartialEq, Eq, Structural)]
pub struct Frame {
    pub fst: usize,
    pub snd: usize,
    pub weight: u32,
}

/// What the playback engine knows of its buffer and playhead.
pub struct PlaybackModel {
    /// Samples in the buffer.
    pub len: nat,
    /// Samples in one slice.
    pub slice_len: nat,
    /// Playhead, in `1 / UNIT` samples.
    pub pos: int,
    pub slice: nat,
    /// Playhead speed, in `1 / UNIT` samples per frame.
    pub speed: nat,
    pub direction: Direction,
    pub playing: bool,
}

impl PlaybackModel {
    pub open spec fn initial(len: nat) -> PlaybackModel {
        PlaybackModel {
            len,
            slice_len: len / DEFAULT_SLICES as nat,
            pos: 0,
            slice: 0,
            speed: UNIT as nat,
            direction: Direction::Forward,
            playing: false,
        }
    }

    pub open spec fn well_formed(self) -> bool {
        &&& self.len <= usize::MAX
        &&& self.slice_len == self.len / DEFAULT_SLICES as nat
        &&& self.slice < DEFAULT_SLICES
        &&& 0 <= self.pos <= last_pos(self.len as int)
        &&& self.speed <= u32::MAX
        &&& self.playing ==> self.len > 0
    }

    /// Sample index under the playhead.
    pub open spec fn sample_index(self) -> int {
        self.pos / UNIT as int
    }

    /// The state after one command.
    pub open spec fn after_command(self, step: Step) -> PlaybackModel {
        match step {
            Step::On(b) => {
                let k = clamp_slice(b.spec_slice() as int);
                PlaybackModel {
                    pos: trigger_sample(k, self.slice_len as int, b.spec_direction()) * UNIT as int,
                    slice: k as nat,
                    speed: b.spec_pitch() as nat,
                    direction: b.spec_direction(),
                    playing: self.len > 0,
                    ..self
                }
            },
            Step::Off => PlaybackModel { playing: false, ..self },
        }
    }

    /// The state after the commands of `steps`, in order.
    pub open spec fn after_commands(self, steps: Seq<Step>) -> PlaybackModel
        decreases steps.len(),
    {
        if steps.len() == 0 {
            self
        } else {
            self.after_command(steps[0]).after_commands(steps.drop_first())
        }
    }

    /// Playhead moved by the speed in the direction of travel, brought back to
    /// the other end of the buffer when it leaves it.
    pub open spec fn advanced_pos(self) -> int {
        let n = match self.direction {
            Direction::Forward => self.pos + self.speed,
            Direction::Backward => self.pos - self.speed,
        };
        wrap_spec(n, 0, last_pos(self.len as int))
    }

    /// The state after one frame was rendered: when playing, the playhead moves, and
    /// playback goes on only while the playhead stays within the slice.
    pub open spec fn after_render(self) -> PlaybackModel {
        if !self.playing {
            self
        } else {
            let moved = PlaybackModel { pos: self.advanced_pos(), ..self };
            PlaybackModel {
                playing: in_slice(
                    moved.sample_index(),
                    moved.slice as int,
                    moved.slice_len as int,
                    moved.direction,
                ),
                ..moved
            }
        }
    }

    /// The frame read at the playhead: the sample under it, its neighbour in the
    /// direction of travel (both brought back into the buffer), and the fraction
    /// of a sample the playhead stands past the first.
    pub open spec fn frame(self) -> Frame {
        let fst = self.sample_index();
        let snd = match self.direction {
            Direction::Forward => wrap_spec(fst + 1, 0, self.len - 1),
            Direction::Backward => wrap_spec(fst - 1, 0, self.len - 1),
        };
        Frame { fst: fst as usize, snd: snd as usize, weight: (self.pos % UNIT as int) as u32 }
    }
}

/// Slices fit in the buffer: slice `k` of `len / 16` samples ends at or before `len`.
proof fn lemma_slice_fits(len: nat, k: nat)
    requires
        k < DEFAULT_SLICES,
    ensures
        k * (len / DEFAULT_SLICES as nat) + len / DEFAULT_SLICES as nat <= len,
        k * (len / DEFAULT_SLICES as nat) <= len,
{
    let sl = len / 16;
    lemma_fundamental_div_mod(len as int, 16);
    assert(k * sl <= 15 * sl) by (nonlinear_arith)
        requires
            k <= 15,
    ;
}

/// A position no further than `last_pos(len)` lies on a sample of the buffer.
proof fn lemma_index_in_buffer(pos: int, len: int)
    requires
        len > 0,
        0 <= pos <= last_pos(len),
    ensures
        0 <= pos / UNIT as int <= len - 1,
{
    lemma_div_is_ordered(pos, (len - 1) * 65536, 65536);
    lemma_div_is_ordered(0, pos, 65536);
    lemma_div_multiples_vanish(len - 1, 65536);
    assert((len - 1) * 65536 == 65536 * (len - 1)) by (nonlinear_arith);
}

/// Buffer, playhead and play state of the slice playback engine.
pub struct PlaybackState {
    len: usize,
    slice_len: usize,
    pos: u128,
    current_slice: usize,
    speed: u32,
    direction: Direction,
    playing: bool,
}

impl View for PlaybackState {
    type V = PlaybackModel;

    closed spec fn view(&self) -> PlaybackModel {
        PlaybackModel {
            len: self.len as nat,
            slice_len: self.slice_len as nat,
            pos: self.pos as int,
            slice: self.current_slice as nat,
            speed: self.speed as nat,
            direction: self.direction,
            playing: self.playing,
        }
    }
}

impl PlaybackState {
    /// Stopped engine over a buffer of `len` samples, playhead at its start.
    pub fn new(len: usize) -> (r: Self)
        ensures
            r@ == PlaybackModel::initial(len as nat),
            r@.well_formed(),
    {
        PlaybackState {
            len,
            slice_len: len / DEFAULT_SLICES,
            pos: 0,
            current_slice: 0,
            speed: UNIT,
            direction: Direction::Forward,
            playing: false,
        }
    }

    pub fn is_playing(&self) -> (r: bool)
        ensures
            r == self@.playing,
    {
        self.playing
    }

    /// Playhead, in `1 / UNIT` samples.
    pub fn position(&self) -> (r: u128)
        ensures
            r == self@.pos,
    {
        self.pos
    }

    pub fn current_slice(&self) -> (r: usize)
        ensures
            r == self@.slice,
    {
        self.current_slice
    }

    pub fn slice_len(&self) -> (r: usize)
        ensures
            r == self@.slice_len,
    {
        self.slice_len
    }

    /// Carries out one command: a trigger starts its slice (clamped to the last
    /// slice) from its first sample going forward or its last going backward;
    /// `Off` stops playback.
    pub fn apply(&mut self, step: Step)
        requires
            old(self)@.well_formed(),
        ensures
            final(self)@ == old(self)@.after_command(step),
            final(self)@.well_formed(),
    {
        match step {
            Step::On(b) => {
                let k = if b.slice < DEFAULT_SLICES {
                    b.slice
                } else {
                    DEFAULT_SLICES - 1
                };
                proof {
                    lemma_slice_fits(self.len as nat, k as nat);
                }
                let start = k * self.slice_len;
                let first: usize = match b.direction {
                    Direction::Forward => start,
                    Direction::Backward => if self.slice_len > 0 {
                        start + self.slice_len - 1
                    } else {
                        start
                    },
                };
                proof {
                    let sl = self.slice_len as int;
                    if self.len > 0 {
                        lemma_fundamental_div_mod(self.len as int, 16);
                        assert(k * sl <= 15 * sl) by (nonlinear_arith)
                            requires
                                0 <= k <= 15,
                                sl >= 0,
                        ;
                        assert(first as int * 65536 <= (self.len - 1) * 65536) by (nonlinear_arith)
                            requires
                                first <= self.len - 1,
                        ;
                    }
                }
                self.pos = first as u128 * UNIT as u128;
                self.current_slice = k;
                self.speed = b.pitch;
                self.direction = b.direction;
                self.playing = self.len > 0;
            },
            Step::Off => {
                self.playing = false;
            },
        }
    }

    /// Moves the playhead by the speed in the direction of travel.
    fn advance(&mut self)
        requires
            old(self)@.well_formed(),
        ensures
            final(self)@ == (PlaybackModel { pos: old(self)@.advanced_pos(), ..old(self)@ }),
            final(self)@.well_formed(),
    {
        let hi: u128 = if self.len == 0 {
            0
        } else {
            (self.len - 1) as u128 * UNIT as u128
        };
        proof {
            if self.len > 0 {
                assert((self.len - 1) * 65536 <= u64::MAX * 65536) by (nonlinear_arith)
                    requires
                        self.len <= u64::MAX,
                ;
            }
        }
        match self.direction {
            Direction::Forward => {
                let n = self.pos + self.speed as u128;
                self.pos = if n > hi {
                    0
                } else {
                    n
                };
            },
            Direction::Backward => {
                self.pos = if self.speed as u128 > self.pos {
                    hi
                } else {
                    self.pos - self.speed as u128
                };
            },
        }
    }

    /// The frame read at the playhead.
    fn frame(&self) -> (r: Frame)
        requires
            self@.well_formed(),
            self@.len > 0,
        ensures
            r == self@.frame(),
    {
        proof {
            lemma_index_in_buffer(self.pos as int, self.len as int);
        }
        let fst = (self.pos / UNIT as u128) as usize;
        let last = self.len - 1;
        let snd = match self.direction {
            Direction::Forward => wrap(fst + 1, 0, last),
            Direction::Backward => if fst == 0 {
                last
            } else {
                wrap(fst - 1, 0, last)
            },
        };
        Frame { fst, snd, weight: (self.pos % UNIT as u128) as u32 }
    }

    /// Keeps playback on only while the playhead stays within the slice.
    fn slice_ended(&mut self)
        requires
            old(self)@.well_formed(),
            old(self)@.len > 0,
        ensures
            final(self)@ == (PlaybackModel {
                playing: in_slice(
                    old(self)@.sample_index(),
                    old(self)@.slice as int,
                    old(self)@.slice_len as int,
                    old(self)@.direction,
                ),
                ..old(self)@
            }),
    {
        proof {
            lemma_index_in_buffer(self.pos as int, self.len as int);
            lemma_slice_fits(self.len as nat, self.current_slice as nat);
        }
        let p = (self.pos / UNIT as u128) as usize;
        let start = self.current_slice * self.slice_len;
        let end = start + self.slice_len;
        self.playing = match self.direction {
            Direction::Forward => p >= start && p < end,
            Direction::Backward => p <= end && p > start,
        };
    }

    /// Renders one frame: when playing, moves the playhead, reads the frame under it
    /// and stops playback if the playhead left the slice; when stopped, gives silence.
    pub fn render(&mut self) -> (r: Option<Frame>)
        requires
            old(self)@.well_formed(),
        ensures
            final(self)@ == old(self)@.after_render(),
            final(self)@.well_formed(),
            r == (if old(self)@.playing {
                Some(final(self)@.frame())
            } else {
                None
            }),
    {
        if self.playing {
            self.advance();
            let f = self.frame();
            self.slice_ended();
            Some(f)
        } else {
            None
        }
    }
}

#[verifier::external_type_specification]
#[verifier::external_body]
#[verifier::reject_recursive_types(T)]
pub struct ExReceiver<T>(Receiver<T>);

/// Relies on `std::sync::mpsc::Receiver::try_recv`: it never blocks, and hands out
/// the oldest queued command, if any. What it returns depends on the sending thread.
#[verifier::external_body]
fn try_receive(channel: &Receiver<Step>) -> (r: Option<Step>) {
    channel.try_recv().ok()
}

/// The slice playback engine: its playback state, driven by the commands that
/// arrive on a channel.
pub struct Sampler {
    state: PlaybackState,
    channel: Receiver<Step>,
}

impl View for Sampler {
    type V = PlaybackModel;

    closed spec fn view(&self) -> PlaybackModel {
        self.state@
    }
}

impl Sampler {
    /// A stopped engine over a buffer of `len` samples, fed by `channel`.
    pub fn new(len: usize, channel: Receiver<Step>) -> (r: Self)
        ensures
            r@ == PlaybackModel::initial(len as nat),
            r@.well_formed(),
    {
        Sampler { state: PlaybackState::new(len), channel }
    }

    pub fn is_playing(&self) -> (r: bool)
        requires
            self@.well_formed(),
        ensures
            r == self@.playing,
    {
        self.state.is_playing()
    }

    pub fn state(&self) -> (r: &PlaybackState)
        ensures
            r@ == self@,
    {
        &self.state
    }

    /// Takes up to `DRAIN_CAP` queued commands, oldest first, and carries them out;
    /// the rest wait for the next call.
    fn handle_message(&mut self)
        requires
            old(self)@.well_formed(),
        ensures
            final(self)@.well_formed(),
            exists|steps: Seq<Step>|
                steps.len() <= DRAIN_CAP && final(self)@ == old(self)@.after_commands(steps),
    {
        let ghost start = self.state@;
        let ghost mut taken: Seq<Step> = Seq::empty();
        let mut count: usize = 0;
        while count < DRAIN_CAP
            invariant
                self.state@.well_formed(),
                taken.len() == count,
                count <= DRAIN_CAP,
                self.state@ == start.after_commands(taken),
            decreases DRAIN_CAP - count,
        {
            match try_receive(&self.channel) {
                Some(step) => {
                    proof {
                        lemma_after_commands_push(start, taken, step);
                        taken = taken.push(step);
                    }
                    self.state.apply(step);
                    count = count + 1;
                },
                None => {
                    break;
                },
            }
        }
        assert(self.state@ == start.after_commands(taken));
    }

    /// One output frame: carries out up to `DRAIN_CAP` queued commands, then renders
    /// a frame of the state they leave, or `None` (silence) when that state is stopped.
    pub fn tick(&mut self) -> (r: Option<Frame>)
        requires
            old(self)@.well_formed(),
        ensures
            final(self)@.well_formed(),
            exists|steps: Seq<Step>|
                {
                    let drained = #[trigger] old(self)@.after_commands(steps);
                    &&& steps.len() <= DRAIN_CAP
                    &&& final(self)@ == drained.after_render()
                    &&& r == (if drained.playing {
                        Some(final(self)@.frame())
                    } else {
                        None
                    })
                },
    {
        self.handle_message();
        self.state.render()
    }
}

/// Carrying out one more command after a sequence is carrying out the longer sequence.
proof fn lemma_after_commands_push(s: PlaybackModel, steps: Seq<Step>, step: Step)
    ensures
        s.after_commands(steps).after_command(step) == s.after_commands(steps.push(step)),
    decreases steps.len(),
{
    if steps.len() == 0 {
        assert(steps.push(step).drop_first() =~= Seq::<Step>::empty());
        assert(s.after_command(step).after_commands(Seq::empty()) == s.after_command(step));
        assert(s.after_commands(steps) == s);
    } else {
        lemma_after_commands_push(s.after_command(steps[0]), steps.drop_first(), step);
        assert(steps.push(step).drop_first() =~= steps.drop_first().push(step));
        assert(steps.push(step)[0] == steps[0]);
    }
}

/// Moving the playhead keeps it in the buffer, whatever its position, speed and
/// direction: it stays within `[0, last_pos(len)]`, on a sample index in `[0, len)`.
pub proof fn lemma_advance_in_buffer(m: PlaybackModel)
    requires
        m.well_formed(),
        m.len > 0,
    ensures
        0 <= m.advanced_pos() <= last_pos(m.len as int),
        0 <= (PlaybackModel { pos: m.advanced_pos(), ..m }).sample_index() < m.len,
{
    lemma_index_in_buffer(m.advanced_pos(), m.len as int);
}

/// Triggering slice `k` puts the playhead on sample `k * slice_len` going forward,
/// and on sample `k * slice_len + slice_len - 1` going backward (slices of at least
/// one sample), and starts playback.
pub proof fn lemma_trigger_position(m: PlaybackModel, b: StepBuilder)
    requires
        m.well_formed(),
        m.len > 0,
        b.spec_slice() < DEFAULT_SLICES,
    ensures
        ({
            let t = m.after_command(Step::On(b));
            let k = b.spec_slice() as int;
            let sl = m.slice_len as int;
            &&& t.playing
            &&& t.slice == k
            &&& b.spec_direction() == Direction::Forward ==> t.pos == k * sl * UNIT as int
            &&& b.spec_direction() == Direction::Backward && sl > 0 ==> t.pos == (k * sl + sl - 1)
                * UNIT as int
        }),
{
}

/// Playback of a slice stops on its own: after a frame is rendered, playback goes on
/// exactly while the playhead is within the slice in the direction of travel; once
/// stopped, rendering gives silence and moves nothing.
pub proof fn lemma_one_shot(m: PlaybackModel)
    requires
        m.well_formed(),
        m.playing,
    ensures
        ({
            let r = m.after_render();
            &&& r.playing <==> in_slice(
                r.sample_index(),
                r.slice as int,
                r.slice_len as int,
                r.direction,
            )
            &&& !r.playing ==> r.after_render() == r
        }),
{
}

/// Commands are carried out in order: when the last of a batch is `Off`, the
/// engine is stopped after the batch, whatever came before it.
pub proof fn lemma_stop_last_wins(m: PlaybackModel, steps: Seq<Step>)
    requires
        steps.len() > 0,
        steps.last() == Step::Off,
    ensures
        !m.after_commands(steps).playing,
{
    let init = steps.drop_last();
    lemma_after_commands_push(m, init, Step::Off);
    assert(init.push(Step::Off) =~= steps);
}

/// The frame read at the playhead brackets it: the first sample is the one under the
/// playhead, the weight of the second is the fraction of a sample the playhead stands
/// past the first (so the blend is `a * (1 - frac) + b * frac`), and away from the
/// buffer's ends the second is the next sample in the direction of travel.
pub proof fn lemma_frame_brackets_playhead(m: PlaybackModel)
    requires
        m.well_formed(),
        m.len > 0,
    ensures
        ({
            let f = m.frame();
            &&& f.fst < m.len
            &&& f.snd < m.len
            &&& f.weight < UNIT
            &&& f.fst * UNIT as int + f.weight == m.pos
            &&& m.direction == Direction::Forward && f.fst + 1 < m.len ==> f.snd == f.fst + 1
            &&& m.direction == Direction::Backward && f.fst > 0 ==> f.snd == f.fst - 1
        }),
{
    lemma_index_in_buffer(m.pos, m.len as int);
    lemma_fundamental_div_mod(m.pos, UNIT as int);
    lemma_mod_pos_bound(m.pos, UNIT as int);
    let q = m.pos / UNIT as int;
    assert(UNIT as int * q == q * UNIT as int) by (nonlinear_arith);
}

} // verus!
