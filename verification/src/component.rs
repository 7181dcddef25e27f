use vstd::prelude::*;
use crate::geometry::Point;

verus! {

/// Identifies a timer requested from the event loop.
#[derive(Clone, Copy, PartialEq, Eq, Structural, Debug)]
pub struct TimerToken {
    pub id: u32,
}

/// A touch on the screen.
#[derive(Clone, Copy, PartialEq, Eq, Structural, Debug)]
pub enum TouchEvent {
    TouchStart(Point),
    TouchMove(Point),
    TouchEnd(Point),
}

/// An event delivered to a component.
#[derive(Clone, Copy, PartialEq, Eq, Structural, Debug)]
pub enum Event {
    /// The component was attached to the screen.
    Attach,
    Touch(TouchEvent),
    /// A requested timer fired.
    Timer(TimerToken),
}

/// A swipe direction.
#[derive(Clone, Copy, PartialEq, Eq, Structural, Debug)]
pub enum Direction {
    Up,
    Down,
    Left,
    Right,
}

/// The token of the timer that drives animation frames; other timers get
/// tokens from 2 on.
pub fn anim_frame_timer() -> (r: TimerToken)
    ensures
        r.id == 1,
{
    TimerToken { id: 1 }
}

/// What the components ask of the event loop while handling an event: a repaint,
/// an animation frame, and timers, each with its duration in milliseconds.
pub struct EventCtx {
    pub paint_requested: bool,
    pub anim_frame_requested: bool,
    pub next_token: u32,
    pub timers: Vec<(TimerToken, u32)>,
}

impl EventCtx {
    pub fn new() -> (r: Self)
        ensures
            !r.paint_requested,
            !r.anim_frame_requested,
            r.next_token == 2,
            r.timers@.len() == 0,
    {
        EventCtx { paint_requested: false, anim_frame_requested: false, next_token: 2, timers: Vec::new() }
    }

    pub fn request_paint(&mut self)
        ensures
            final(self).paint_requested,
            final(self).anim_frame_requested == old(self).anim_frame_requested,
            final(self).next_token == old(self).next_token,
            final(self).timers@ == old(self).timers@,
    {
        self.paint_requested = true;
    }

    pub fn request_anim_frame(&mut self)
        ensures
            final(self).anim_frame_requested,
            final(self).paint_requested == old(self).paint_requested,
            final(self).next_token == old(self).next_token,
            final(self).timers@ == old(self).timers@,
    {
        self.anim_frame_requested = true;
    }

    /// Hands out a fresh token; the counter wraps around.
    pub fn next_timer_token(&mut self) -> (t: TimerToken)
        ensures
            t.id == old(self).next_token,
            final(self).next_token == old(self).next_token.wrapping_add(1),
            final(self).paint_requested == old(self).paint_requested,
            final(self).anim_frame_requested == old(self).anim_frame_requested,
            final(self).timers@ == old(self).timers@,
    {
        let t = TimerToken { id: self.next_token };
        self.next_token = self.next_token.wrapping_add(1);
        t
    }

    /// Asks for the timer `token` to fire after `duration_ms` milliseconds.
    pub fn register_timer(&mut self, token: TimerToken, duration_ms: u32)
        ensures
            final(self).timers@ == old(self).timers@.push((token, duration_ms)),
            final(self).paint_requested == old(self).paint_requested,
            final(self).anim_frame_requested == old(self).anim_frame_requested,
            final(self).next_token == old(self).next_token,
    {
        self.timers.push((token, duration_ms));
    }

    /// Requests a new timer and returns its token.
    pub fn request_timer(&mut self, duration_ms: u32) -> (t: TimerToken)
        ensures
            t.id == old(self).next_token,
            final(self).next_token == old(self).next_token.wrapping_add(1),
            final(self).timers@ == old(self).timers@.push((t, duration_ms)),
            final(self).paint_requested == old(self).paint_requested,
            final(self).anim_frame_requested == old(self).anim_frame_requested,
    {
        let t = self.next_timer_token();
        self.register_timer(t, duration_ms);
        t
    }
}

/// Whether `ctx` differs from `old` at most by a requested repaint.
pub open spec fn ctx_paint_only(old: EventCtx, new: EventCtx) -> bool {
    &&& (old.paint_requested ==> new.paint_requested)
    &&& new.anim_frame_requested == old.anim_frame_requested
    &&& new.next_token == old.next_token
    &&& new.timers@ == old.timers@
}

/// Whether `new` only adds requests to `old`: more timers, a repaint.
pub open spec fn ctx_grows(old: EventCtx, new: EventCtx) -> bool {
    &&& (old.paint_requested ==> new.paint_requested)
    &&& new.anim_frame_requested == old.anim_frame_requested
    &&& new.timers@.len() >= old.timers@.len()
    &&& new.timers@.subrange(0, old.timers@.len() as int) == old.timers@
}

/// Requests only ever accumulate.
pub proof fn lemma_ctx_grows_trans(a: EventCtx, b: EventCtx, c: EventCtx)
    requires
        ctx_grows(a, b),
        ctx_grows(b, c),
    ensures
        ctx_grows(a, c),
{
    assert(c.timers@.subrange(0, a.timers@.len() as int) =~= b.timers@.subrange(0, a.timers@.len() as int));
}

/// A context that changed at most by a repaint, or by one more timer, only grew.
pub proof fn lemma_ctx_grows_by(a: EventCtx, b: EventCtx)
    requires
        ctx_paint_only(a, b) || ((a.paint_requested ==> b.paint_requested) && b.anim_frame_requested
            == a.anim_frame_requested && exists|t: (TimerToken, u32)| b.timers@ == a.timers@.push(t)),
    ensures
        ctx_grows(a, b),
{
    if !ctx_paint_only(a, b) {
        let t = choose|t: (TimerToken, u32)| b.timers@ == a.timers@.push(t);
        assert(b.timers@.subrange(0, a.timers@.len() as int) =~= a.timers@);
    } else {
        assert(b.timers@.subrange(0, a.timers@.len() as int) =~= a.timers@);
    }
}

/// A one-shot timer owned by a component.
pub struct Timer {
    token: Option<TimerToken>,
    running: bool,
}

impl Timer {
    pub closed spec fn spec_token(self) -> Option<TimerToken> {
        self.token
    }

    pub closed spec fn spec_running(self) -> bool {
        self.running
    }

    pub fn new() -> (r: Self)
        ensures
            r.spec_token() is None,
            !r.spec_running(),
    {
        Timer { token: None, running: false }
    }

    /// Starts the timer, reusing its token or taking a fresh one.
    pub fn start(&mut self, ctx: &mut EventCtx, duration_ms: u32)
        ensures
            final(self).spec_running(),
            final(self).spec_token() is Some,
            old(self).spec_token() is Some ==> final(self).spec_token() == old(self).spec_token()
                && final(ctx).next_token == old(ctx).next_token,
            old(self).spec_token() is None ==> final(self).spec_token() == Some(
                TimerToken { id: old(ctx).next_token },
            ) && final(ctx).next_token == old(ctx).next_token.wrapping_add(1),
            final(ctx).timers@ == old(ctx).timers@.push(
                (final(self).spec_token()->0, duration_ms),
            ),
            final(ctx).paint_requested == old(ctx).paint_requested,
            final(ctx).anim_frame_requested == old(ctx).anim_frame_requested,
    {
        let token = match self.token {
            Some(t) => t,
            None => ctx.next_timer_token(),
        };
        self.token = Some(token);
        self.running = true;
        ctx.register_timer(token, duration_ms);
    }

    pub fn stop(&mut self)
        ensures
            !final(self).spec_running(),
            final(self).spec_token() == old(self).spec_token(),
    {
        self.running = false;
    }

    pub fn is_running(&self) -> (r: bool)
        ensures
            r == self.spec_running(),
    {
        self.running
    }

    /// Whether `event` is this running timer firing; it then stops.
    pub open spec fn spec_fires(self, event: Event) -> bool {
        &&& self.spec_running()
        &&& self.spec_token() is Some
        &&& event == Event::Timer(self.spec_token()->0)
    }

    pub fn expire(&mut self, event: Event) -> (r: bool)
        ensures
            r == old(self).spec_fires(event),
            final(self).spec_token() == old(self).spec_token(),
            final(self).spec_running() == (old(self).spec_running() && !r),
    {
        match self.token {
            Some(t) => {
                if self.running && event == Event::Timer(t) {
                    self.running = false;
                    true
                } else {
                    false
                }
            },
            None => false,
        }
    }
}

} // verus!
