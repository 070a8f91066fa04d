use vstd::prelude::*;

use vstd::arithmetic::div_mod::{
    lemma_div_is_ordered,
    lemma_fundamental_div_mod,
    lemma_mod_pos_bound,
};
use vstd::arithmetic::mul::lemma_mul_inequality;

use crate::error::PagerError;
use crate::placement::{
    after_offset,
    before_offset,
    calc_position,
    extent,
    int_min,
    is_horizontal,
    sign,
    Direction,
    Position,
};

verus! {

/// What one frame draws: the progress it shows and where each image goes.
#[derive(Clone, Copy, Debug, PartialEq, Eq, Structural)]
pub struct Frame {
    pub progress: u32,
    pub before_x: i64,
    pub before_y: i64,
    pub after_x: i64,
    pub after_y: i64,
}

/// The frame drawn at progress `p`.
pub open spec fn frame_at(d: Direction, p: int, width: int, height: int) -> Frame {
    Frame {
        progress: p as u32,
        before_x: before_offset(d, p, width, height).0 as i64,
        before_y: before_offset(d, p, width, height).1 as i64,
        after_x: after_offset(d, p, width, height).0 as i64,
        after_y: after_offset(d, p, width, height).1 as i64,
    }
}

/// A step count the slide accepts: any positive count.
pub open spec fn accepts_steps(steps: int) -> bool {
    steps > 0
}

/// Progress after `k` advances of a slide over `extent` pixels in `steps`
/// steps. The step is the fraction `extent / steps`; progress is taken in
/// whole pixels, rounded down, and clamped to the extent.
pub open spec fn progress_after(k: nat, extent: int, steps: int) -> int {
    int_min(k * extent / steps, extent)
}

/// The advances after which a slide is finished: `steps`, which is the
/// extent divided by the step size; none where there is nothing to cover.
pub open spec fn advances_to_finish(extent: int, steps: int) -> int {
    if extent == 0 {
        0
    } else {
        steps
    }
}

/// The abstract state of a running slide.
pub struct TransitionView {
    pub direction: Direction,
    pub width: nat,
    pub height: nat,
    /// The number of steps the slide was asked to take.
    pub steps: nat,
    pub progress: nat,
    /// How many times the progress has been advanced.
    pub advances: nat,
}

impl TransitionView {
    pub open spec fn extent(self) -> int {
        extent(self.direction, self.width as int, self.height as int)
    }

    pub open spec fn wf(self) -> bool {
        &&& self.width <= u32::MAX
        &&& self.height <= u32::MAX
        &&& 0 < self.steps <= u32::MAX
        &&& self.advances <= self.steps
        &&& self.progress == progress_after(self.advances, self.extent(), self.steps as int)
    }

    /// The slide has covered its whole extent: the frame at this progress is the last.
    pub open spec fn finished(self) -> bool {
        self.progress == self.extent()
    }

    pub open spec fn frame(self) -> Frame {
        frame_at(self.direction, self.progress as int, self.width as int, self.height as int)
    }

    /// The state after one frame: unchanged once finished, else advanced by a
    /// step.
    pub open spec fn advanced(self) -> TransitionView {
        if self.finished() {
            self
        } else {
            TransitionView {
                progress: progress_after(self.advances + 1, self.extent(), self.steps as int) as nat,
                advances: self.advances + 1,
                ..self
            }
        }
    }

    /// The state after `k` frames.
    pub open spec fn run(self, k: nat) -> TransitionView
        decreases k,
    {
        if k == 0 {
            self
        } else {
            self.advanced().run((k - 1) as nat)
        }
    }
}

/// The state in which a slide starts.
pub open spec fn started(d: Direction, steps: int, width: nat, height: nat) -> TransitionView {
    TransitionView {
        direction: d,
        width,
        height,
        steps: steps as nat,
        progress: 0,
        advances: 0,
    }
}

/// A slide in progress: one image moving out, the other moving in.
pub struct Transition {
    direction: Direction,
    width: u32,
    height: u32,
    steps: u32,
    progress: u32,
    advances: u32,
}

impl View for Transition {
    type V = TransitionView;

    closed spec fn view(&self) -> TransitionView {
        TransitionView {
            direction: self.direction,
            width: self.width as nat,
            height: self.height as nat,
            steps: self.steps as nat,
            progress: self.progress as nat,
            advances: self.advances as nat,
        }
    }
}

impl Transition {
    /// Starts a slide over a `width` × `height` canvas in `steps` steps, or
    /// refuses a step count of zero.
    pub fn start(direction: Direction, steps: u32, width: u32, height: u32) -> (r: Result<
        Transition,
        PagerError,
    >)
        ensures
            steps > 0 ==> (r matches Ok(t) && t@ == started(
                direction,
                steps as int,
                width as nat,
                height as nat,
            )),
            steps == 0 ==> r == Err::<Transition, PagerError>(PagerError::InvalidParameter),
            r matches Ok(t) ==> t@.wf(),
    {
        if steps == 0 {
            return Err(PagerError::InvalidParameter);
        }
        let ghost e = extent(direction, width as int, height as int);
        assert(0 * e / (steps as int) == 0) by (nonlinear_arith)
            requires
                steps > 0,
        ;
        Ok(Transition { direction, width, height, steps, progress: 0, advances: 0 })
    }

    /// The frame at the current progress.
    pub fn frame(&self) -> (r: Frame)
        requires
            self@.wf(),
        ensures
            r == self@.frame(),
    {
        let b = calc_position(self.progress, self.width, self.height, self.direction, Position::Before);
        let a = calc_position(self.progress, self.width, self.height, self.direction, Position::After);
        Frame { progress: self.progress, before_x: b.0, before_y: b.1, after_x: a.0, after_y: a.1 }
    }

    /// Draws one frame's worth: returns the frame at the current progress and
    /// whether another frame follows, then advances the progress by a step,
    /// so that the last frame lands exactly on the extent.
    pub fn tick(&mut self) -> (r: (Frame, bool))
        requires
            old(self)@.wf(),
        ensures
            r.0 == old(self)@.frame(),
            r.1 == !old(self)@.finished(),
            final(self)@ == old(self)@.advanced(),
            final(self)@.wf(),
    {
        let frame = self.frame();
        let full = extent_of(self.direction, self.width, self.height);
        if self.progress >= full {
            return (frame, false);
        }
        proof {
            lemma_progress_bounds(self.advances as int, full as int, self.steps as int);
        }
        let k = self.advances + 1;
        assert(k * full <= u32::MAX * u32::MAX) by (nonlinear_arith)
            requires
                k <= u32::MAX,
                full <= u32::MAX,
        ;
        proof {
            lemma_progress_bounds(k as int, full as int, self.steps as int);
        }
        let next = (k as u64 * full as u64 / self.steps as u64) as u32;
        self.progress = next;
        self.advances = k;
        (frame, true)
    }

    pub fn is_finished(&self) -> (r: bool)
        requires
            self@.wf(),
        ensures
            r == self@.finished(),
    {
        self.progress == extent_of(self.direction, self.width, self.height)
    }
}

fn extent_of(direction: Direction, width: u32, height: u32) -> (r: u32)
    ensures
        r == extent(direction, width as int, height as int),
{
    match direction {
        Direction::Right | Direction::Left => width,
        Direction::Up | Direction::Down => height,
    }
}

/// After `k` of `steps` fractional steps over `extent` pixels the whole-pixel
/// progress stays within the extent, and it reaches the extent exactly when
/// all the steps have been taken (where there is anything to cover).
pub proof fn lemma_progress_bounds(k: int, extent: int, steps: int)
    requires
        k >= 0,
        extent >= 0,
        steps > 0,
    ensures
        k * extent / steps >= 0,
        k <= steps ==> k * extent / steps <= extent,
        k >= steps ==> k * extent / steps >= extent,
        k < steps && extent > 0 ==> k * extent / steps < extent,
{
    let x = k * extent;
    lemma_fundamental_div_mod(x, steps);
    lemma_mod_pos_bound(x, steps);
    let q = x / steps;
    let r = x % steps;
    assert(x >= 0) by (nonlinear_arith)
        requires
            x == k * extent,
            k >= 0,
            extent >= 0,
    ;
    assert(q >= 0) by (nonlinear_arith)
        requires
            x == steps * q + r,
            0 <= r < steps,
            x >= 0,
    ;
    if k <= steps {
        assert(q <= extent) by (nonlinear_arith)
            requires
                x == k * extent,
                x == steps * q + r,
                0 <= r < steps,
                k <= steps,
                extent >= 0,
        ;
    }
    if k >= steps {
        assert(q >= extent) by (nonlinear_arith)
            requires
                x == k * extent,
                x == steps * q + r,
                0 <= r < steps,
                k >= steps,
                extent >= 0,
        ;
    }
    if k < steps && extent > 0 {
        assert(q < extent) by (nonlinear_arith)
            requires
                x == k * extent,
                x == steps * q + r,
                0 <= r < steps,
                k < steps,
                extent > 0,
        ;
    }
}

/// More advances never lower the progress.
proof fn lemma_progress_monotone(j: nat, k: nat, extent: int, steps: int)
    requires
        j <= k,
        extent >= 0,
        steps > 0,
    ensures
        progress_after(j, extent, steps) <= progress_after(k, extent, steps),
{
    lemma_mul_inequality(j as int, k as int, extent);
    lemma_div_is_ordered(j * extent, k * extent, steps);
}

/// A well-formed slide has taken fewer than all its steps while unfinished.
proof fn lemma_unfinished_has_steps_left(t: TransitionView)
    requires
        t.wf(),
        !t.finished(),
    ensures
        t.advances < t.steps,
        t.extent() > 0,
{
    lemma_progress_bounds(t.advances as int, t.extent(), t.steps as int);
}

/// Running a well-formed slide for `k` more frames keeps it well-formed and
/// leaves it at the progress of all the advances made so far.
proof fn lemma_run(t: TransitionView, k: nat)
    requires
        t.wf(),
    ensures
        t.run(k).wf(),
        t.run(k).progress == progress_after(t.advances + k, t.extent(), t.steps as int),
        t.run(k).direction == t.direction,
        t.run(k).width == t.width,
        t.run(k).height == t.height,
        t.run(k).steps == t.steps,
    decreases k,
{
    if k > 0 {
        let j = (k - 1) as nat;
        if !t.finished() {
            lemma_unfinished_has_steps_left(t);
        }
        lemma_run(t.advanced(), j);
        if t.finished() {
            lemma_progress_monotone(t.advances, t.advances + k, t.extent(), t.steps as int);
            lemma_progress_monotone(t.advances, t.advances + j, t.extent(), t.steps as int);
        }
    }
}

/// A slide over extent `e` started with `steps > 0` steps advances by the
/// fractional step `e / steps`: after `k` frames its progress is
/// `min(⌊k · e / steps⌋, e)`, never beyond the extent and never decreasing.
/// It is finished exactly when `k` reaches `steps` (which is `e` divided by
/// the step, rounded up), or at once where `e` is zero; and the frame drawn
/// then has the outgoing image displaced by the whole extent and the incoming
/// image in place.
pub proof fn lemma_reaches_end(d: Direction, steps: int, width: nat, height: nat, k: nat)
    requires
        width <= u32::MAX,
        height <= u32::MAX,
        0 < steps <= u32::MAX,
    ensures
        ({
            let t = started(d, steps, width, height);
            let e = extent(d, width as int, height as int);
            let n = advances_to_finish(e, steps);
            &&& t.run(k).progress == progress_after(k, e, steps)
            &&& t.run(k).progress <= e
            &&& t.run(k).progress <= t.run(k + 1).progress
            &&& t.run(k).finished() <==> k >= n
            &&& t.run(n as nat).frame() == frame_at(d, e, width as int, height as int)
            &&& after_offset(d, e, width as int, height as int) == (0int, 0int)
            &&& before_offset(d, e, width as int, height as int) == (if is_horizontal(d) {
                (sign(d) * e, 0int)
            } else {
                (0int, sign(d) * e)
            })
        }),
{
    let t = started(d, steps, width, height);
    let e = extent(d, width as int, height as int);
    let n = advances_to_finish(e, steps);
    assert(0 * e / steps == 0) by (nonlinear_arith)
        requires
            steps > 0,
    ;
    assert(t.wf());
    lemma_run(t, k);
    lemma_run(t, k + 1);
    lemma_run(t, n as nat);
    lemma_progress_monotone(k, k + 1, e, steps);
    lemma_progress_bounds(k as int, e, steps);
    lemma_progress_bounds(n, e, steps);
}

} // verus!
