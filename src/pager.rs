use vstd::prelude::*;

use crate::error::PagerError;
use crate::rgba::{decoded_rgba, to_rgba, ImageBuffer};
use crate::placement::{extent, Direction, Position};
use crate::transition::{
    accepts_steps,
    frame_at,
    started,
    Frame,
    Transition,
    TransitionView,
};

verus! {

/// What the host does on a scheduled frame.
#[derive(Clone, Copy, Debug, PartialEq, Eq, Structural)]
pub enum FrameAction {
    /// Draw the outgoing image, then the incoming one, where `frame` says;
    /// request another frame when `more` holds.
    Draw { frame: Frame, more: bool },
    /// Draw nothing and request nothing: the ticket belongs to a transition
    /// that has finished or has been replaced.
    Idle,
}

/// The ticket that follows `g`; tickets wrap around.
pub open spec fn next_ticket(g: u64) -> u64 {
    if g == u64::MAX {
        0
    } else {
        (g + 1) as u64
    }
}

/// The abstract state of a pager.
pub struct PagerView<C> {
    /// The rendering context, once installed.
    pub context: Option<C>,
    pub width: nat,
    pub height: nat,
    /// The outgoing and incoming images of the latest transition.
    pub images: Option<((u32, u32, Seq<u8>), (u32, u32, Seq<u8>))>,
    /// The running transition, if any.
    pub animation: Option<TransitionView>,
    /// The ticket of the latest transition.
    pub generation: u64,
}

impl<C> PagerView<C> {
    pub open spec fn wf(self) -> bool {
        &&& self.width <= u32::MAX
        &&& self.height <= u32::MAX
        &&& self.animation matches Some(t) ==> {
            &&& self.context is Some
            &&& t.wf()
            &&& t.width == self.width
            &&& t.height == self.height
        }
    }

    /// Installing a context into a pager that has one changes nothing.
    pub open spec fn initialized(self, context: C, width: nat, height: nat) -> PagerView<C> {
        if self.context is Some {
            self
        } else {
            PagerView { context: Some(context), width, height, ..self }
        }
    }

    /// What a request for a transition answers.
    pub open spec fn transition_result(self, d: Direction, steps: int) -> Result<u64, PagerError> {
        if self.context is None {
            Err(PagerError::NotInitialized)
        } else if !accepts_steps(steps) {
            Err(PagerError::InvalidParameter)
        } else {
            Ok(next_ticket(self.generation))
        }
    }

    /// The state once a transition has been accepted: both images replaced,
    /// a fresh slide running under a new ticket.
    pub open spec fn started(
        self,
        d: Direction,
        steps: int,
        before: (u32, u32, Seq<u8>),
        after: (u32, u32, Seq<u8>),
    ) -> PagerView<C> {
        PagerView {
            images: Some((before, after)),
            animation: Some(started(d, steps, self.width, self.height)),
            generation: next_ticket(self.generation),
            ..self
        }
    }

    /// Outcome and next state of a transition request.
    pub open spec fn requested(
        self,
        d: Direction,
        steps: int,
        before: (u32, u32, Seq<u8>),
        after: (u32, u32, Seq<u8>),
    ) -> (Result<u64, PagerError>, PagerView<C>) {
        let r = self.transition_result(d, steps);
        (r, if r is Ok { self.started(d, steps, before, after) } else { self })
    }

    /// Outcome and next state of a transition request over encoded images.
    pub open spec fn requested_encoded(
        self,
        d: Direction,
        steps: int,
        before: Seq<u8>,
        after: Seq<u8>,
    ) -> (Result<u64, PagerError>, PagerView<C>) {
        match (decoded_rgba(before), decoded_rgba(after)) {
            (None, _) => (Err(PagerError::Decode(Position::Before)), self),
            (Some(_), None) => (Err(PagerError::Decode(Position::After)), self),
            (Some(b), Some(a)) => self.requested(d, steps, b, a),
        }
    }

    /// The ticket names the running transition.
    pub open spec fn is_current(self, ticket: u64) -> bool {
        ticket == self.generation && self.animation is Some
    }

    /// What a frame scheduled under `ticket` does.
    pub open spec fn frame_action(self, ticket: u64) -> FrameAction {
        if self.is_current(ticket) {
            let t = self.animation->0;
            FrameAction::Draw { frame: t.frame(), more: !t.finished() }
        } else {
            FrameAction::Idle
        }
    }

    /// The state after a frame scheduled under `ticket`: the slide advances,
    /// and is dropped once its last frame has been drawn.
    pub open spec fn after_frame(self, ticket: u64) -> PagerView<C> {
        if self.is_current(ticket) {
            let t = self.animation->0;
            PagerView {
                animation: if t.finished() { None } else { Some(t.advanced()) },
                ..self
            }
        } else {
            self
        }
    }

    /// The state after `k` frames scheduled under `ticket`.
    pub open spec fn frames(self, ticket: u64, k: nat) -> PagerView<C>
        decreases k,
    {
        if k == 0 {
            self
        } else {
            self.after_frame(ticket).frames(ticket, (k - 1) as nat)
        }
    }
}

/// Owns the rendering context, the two live images and the running slide,
/// and decides what each scheduled frame draws.
pub struct Pager<C> {
    context: Option<C>,
    width: u32,
    height: u32,
    images: Option<(ImageBuffer, ImageBuffer)>,
    animation: Option<Transition>,
    generation: u64,
}

impl<C> View for Pager<C> {
    type V = PagerView<C>;

    closed spec fn view(&self) -> PagerView<C> {
        PagerView {
            context: self.context,
            width: self.width as nat,
            height: self.height as nat,
            images: match self.images {
                Some(p) => Some((p.0@, p.1@)),
                None => None,
            },
            animation: match self.animation {
                Some(t) => Some(t@),
                None => None,
            },
            generation: self.generation,
        }
    }
}

impl<C> Pager<C> {
    /// A pager with no context, no images and nothing running.
    pub fn new() -> (r: Pager<C>)
        ensures
            r@ == (PagerView::<C> {
                context: None,
                width: 0,
                height: 0,
                images: None,
                animation: None,
                generation: 0,
            }),
            r@.wf(),
    {
        Pager { context: None, width: 0, height: 0, images: None, animation: None, generation: 0 }
    }

    pub fn is_initialized(&self) -> (r: bool)
        ensures
            r == self@.context is Some,
    {
        self.context.is_some()
    }

    /// Installs the rendering context of a `width` × `height` canvas, once:
    /// where a context is installed already, nothing changes.
    pub fn initialize(&mut self, context: C, width: u32, height: u32)
        requires
            old(self)@.wf(),
        ensures
            final(self)@ == old(self)@.initialized(context, width as nat, height as nat),
            final(self)@.wf(),
    {
        if self.context.is_some() {
            return;
        }
        self.context = Some(context);
        self.width = width;
        self.height = height;
    }

    /// The installed rendering context.
    pub fn context(&self) -> (r: Option<&C>)
        ensures
            match self@.context {
                Some(c) => r matches Some(x) && *x == c,
                None => r is None,
            },
    {
        match &self.context {
            Some(c) => Some(c),
            None => None,
        }
    }

    pub fn width(&self) -> (r: u32)
        ensures
            r == self@.width,
    {
        self.width
    }

    pub fn height(&self) -> (r: u32)
        ensures
            r == self@.height,
    {
        self.height
    }

    /// The image in the given slot of the latest transition.
    pub fn image(&self, position: Position) -> (r: Option<&ImageBuffer>)
        ensures
            match self@.images {
                Some(p) => r matches Some(i) && i@ == (if position is Before {
                    p.0
                } else {
                    p.1
                }),
                None => r is None,
            },
    {
        match &self.images {
            Some(p) => match position {
                Position::Before => Some(&p.0),
                Position::After => Some(&p.1),
            },
            None => None,
        }
    }

    /// Starts a slide in `direction` over `steps` frames from `before` to
    /// `after`. Any running slide is abandoned: frames scheduled under its
    /// ticket draw nothing from now on. Returns the new slide's ticket.
    pub fn transition(
        &mut self,
        direction: Direction,
        steps: u32,
        before: ImageBuffer,
        after: ImageBuffer,
    ) -> (r: Result<u64, PagerError>)
        requires
            old(self)@.wf(),
        ensures
            (r, final(self)@) == old(self)@.requested(direction, steps as int, before@, after@),
            final(self)@.wf(),
    {
        if self.context.is_none() {
            return Err(PagerError::NotInitialized);
        }
        let t = match Transition::start(direction, steps, self.width, self.height) {
            Ok(t) => t,
            Err(e) => {
                return Err(e);
            },
        };
        let ticket = if self.generation == u64::MAX {
            0
        } else {
            self.generation + 1
        };
        self.images = Some((before, after));
        self.animation = Some(t);
        self.generation = ticket;
        Ok(ticket)
    }

    fn slide(&mut self, direction: Direction, steps: u32, before: &[u8], after: &[u8]) -> (r:
        Result<u64, PagerError>)
        requires
            old(self)@.wf(),
        ensures
            (r, final(self)@) == old(self)@.requested_encoded(direction, steps as int, before@, after@),
            final(self)@.wf(),
    {
        let b = match to_rgba(before, Position::Before) {
            Ok(i) => i,
            Err(e) => {
                return Err(e);
            },
        };
        let a = match to_rgba(after, Position::After) {
            Ok(i) => i,
            Err(e) => {
                return Err(e);
            },
        };
        self.transition(direction, steps, b, a)
    }

    /// Decodes both images and slides upwards from `before` to `after`.
    pub fn up(&mut self, steps: u32, before: &[u8], after: &[u8]) -> (r: Result<u64, PagerError>)
        requires
            old(self)@.wf(),
        ensures
            (r, final(self)@) == old(self)@.requested_encoded(Direction::Up, steps as int, before@, after@),
            final(self)@.wf(),
    {
        self.slide(Direction::Up, steps, before, after)
    }

    /// Decodes both images and slides rightwards from `before` to `after`.
    pub fn right(&mut self, steps: u32, before: &[u8], after: &[u8]) -> (r: Result<u64, PagerError>)
        requires
            old(self)@.wf(),
        ensures
            (r, final(self)@) == old(self)@.requested_encoded(Direction::Right, steps as int, before@, after@),
            final(self)@.wf(),
    {
        self.slide(Direction::Right, steps, before, after)
    }

    /// Decodes both images and slides downwards from `before` to `after`.
    pub fn down(&mut self, steps: u32, before: &[u8], after: &[u8]) -> (r: Result<u64, PagerError>)
        requires
            old(self)@.wf(),
        ensures
            (r, final(self)@) == old(self)@.requested_encoded(Direction::Down, steps as int, before@, after@),
            final(self)@.wf(),
    {
        self.slide(Direction::Down, steps, before, after)
    }

    /// Decodes both images and slides leftwards from `before` to `after`.
    pub fn left(&mut self, steps: u32, before: &[u8], after: &[u8]) -> (r: Result<u64, PagerError>)
        requires
            old(self)@.wf(),
        ensures
            (r, final(self)@) == old(self)@.requested_encoded(Direction::Left, steps as int, before@, after@),
            final(self)@.wf(),
    {
        self.slide(Direction::Left, steps, before, after)
    }

    /// Runs the frame scheduled under `ticket`: says what to draw, then
    /// advances the slide, or does nothing where the ticket is stale.
    pub fn on_frame(&mut self, ticket: u64) -> (r: FrameAction)
        requires
            old(self)@.wf(),
        ensures
            r == old(self)@.frame_action(ticket),
            final(self)@ == old(self)@.after_frame(ticket),
            final(self)@.wf(),
    {
        if ticket != self.generation {
            return FrameAction::Idle;
        }
        let current = self.animation.take();
        match current {
            Some(mut t) => {
                let (frame, more) = t.tick();
                if more {
                    self.animation = Some(t);
                }
                FrameAction::Draw { frame, more }
            },
            None => FrameAction::Idle,
        }
    }
}

/// Installing a context a second time changes nothing: the context, and so
/// every rendering resource built for it, stays the one installed first.
pub proof fn lemma_initialize_idempotent<C>(
    s: PagerView<C>,
    first: C,
    width1: nat,
    height1: nat,
    second: C,
    width2: nat,
    height2: nat,
)
    ensures
        s.initialized(first, width1, height1).initialized(second, width2, height2) == s.initialized(
            first,
            width1,
            height1,
        ),
        s.context is None ==> s.initialized(first, width1, height1).initialized(
            second,
            width2,
            height2,
        ).context == Some(first),
{
}

/// Frames never change which transition is current.
proof fn lemma_frames_keep_generation<C>(s: PagerView<C>, ticket: u64, k: nat)
    ensures
        s.frames(ticket, k).generation == s.generation,
    decreases k,
{
    if k > 0 {
        lemma_frames_keep_generation(s.after_frame(ticket), ticket, (k - 1) as nat);
    }
}

/// Starting a transition while another is running preempts it: the new one
/// gets a ticket of its own; however many of its frames have run, a frame
/// scheduled under the earlier ticket draws nothing and changes nothing; and
/// the first frame under the new ticket is the new slide's starting frame,
/// followed by more unless the slide has no distance to cover.
pub proof fn lemma_preemption<C>(
    s: PagerView<C>,
    d: Direction,
    steps: int,
    before: (u32, u32, Seq<u8>),
    after: (u32, u32, Seq<u8>),
    k: nat,
)
    requires
        s.wf(),
        s.animation is Some,
        s.transition_result(d, steps) is Ok,
    ensures
        ({
            let s2 = s.started(d, steps, before, after);
            let earlier = s.generation;
            let later = s2.generation;
            &&& s.transition_result(d, steps) == Ok::<u64, PagerError>(later)
            &&& earlier != later
            &&& s2.frames(later, k).frame_action(earlier) == FrameAction::Idle
            &&& s2.frames(later, k).after_frame(earlier) == s2.frames(later, k)
            &&& s2.frame_action(later) == (FrameAction::Draw {
                frame: frame_at(d, 0, s.width as int, s.height as int),
                more: extent(d, s.width as int, s.height as int) != 0,
            })
        }),
{
    let s2 = s.started(d, steps, before, after);
    lemma_frames_keep_generation(s2, s2.generation, k);
}

} // verus!
