use vstd::prelude::*;

use crate::geometry::{needs_resize, reconcile, ViewportDimensions};
use crate::input::{
    advance_pointer, any_consumed, batch_steps, next_pointer, press_events, translate_presses,
    translate_touch, PlayerEvent, PointerState, PointerStep, Press, Touch,
};
use crate::pacer::{FramePacer, TimerCommand};
use crate::slot::EngineSlot;

verus! {

/// A call into the engine or the platform that the host makes on the view's
/// behalf, in the order given.
#[derive(Debug, Clone, Copy, PartialEq, Eq, Structural)]
pub enum Command {
    /// Tell the engine whether it is playing.
    SetPlaying(bool),
    /// Advance the engine by this many microseconds.
    Tick(u64),
    /// Run one frame of the engine at once.
    RunFrame,
    /// Hand the engine new viewport dimensions.
    Resize(ViewportDimensions),
    /// Render the engine's current frame.
    Render,
    /// Clear the engine's transient state (cached shared objects).
    FlushSharedObjects,
    /// Drive the platform timer.
    Timer(TimerCommand),
    /// Tear down the platform timer, so that it never fires again.
    InvalidateTimer,
    /// Ask the platform to redraw the surface soon.
    RequestRedraw,
}

/// The redraw request that follows an engine that wants a new frame.
pub open spec fn redraw_if(needs_render: bool) -> Seq<Command> {
    if needs_render {
        seq![Command::RequestRedraw]
    } else {
        seq![]
    }
}

/// The surface that hosts the engine: the slot the engine is installed in,
/// the pacer that drives it, whether the platform timer still exists, and
/// the state of the single logical pointer.
pub struct PlayerView<T> {
    pub player: EngineSlot<T>,
    pub pacer: FramePacer,
    pub timer_live: bool,
    pub pointer: PointerState,
}

impl<T> PlayerView<T> {
    /// Whether the engine has been installed.
    pub open spec fn has_player(&self) -> bool {
        self.player.held() is Some
    }

    /// Once the engine is installed, the pacer has a time to measure the
    /// first fire from.
    pub open spec fn wf(&self) -> bool {
        self.has_player() ==> self.pacer.last_fire is Some
    }

    /// A view with its timer created but not yet pacing, and no engine.
    pub fn new() -> (r: PlayerView<T>)
        ensures
            r.wf(),
            !r.has_player(),
            r.pacer.last_fire is None,
            r.pacer.next_delay is None,
            r.timer_live,
            r.pointer == PointerState::Idle,
    {
        PlayerView { player: EngineSlot::new(), pacer: FramePacer::new(), timer_live: true, pointer: PointerState::Idle }
    }

    /// Installs the engine, at time `now`, from which the first fire measures
    /// its elapsed time. The engine is installed once: a second one is handed
    /// back as the error, and the view is left as it was.
    pub fn set_player(&mut self, player: T, now: u64) -> (r: Result<(), T>)
        requires
            old(self).wf(),
        ensures
            final(self).wf(),
            final(self).pointer == old(self).pointer,
            !old(self).has_player() ==> r is Ok
                && final(self).player.held() == Some(player)
                && final(self).pacer.last_fire == Some(now)
                && final(self).pacer.next_delay == old(self).pacer.next_delay
                && final(self).timer_live == old(self).timer_live,
            old(self).has_player() ==> r == Err::<(), T>(player)
                && final(self).player.held() == old(self).player.held()
                && final(self).pacer == old(self).pacer
                && final(self).timer_live == old(self).timer_live,
    {
        let r = self.player.set(player);
        if r.is_ok() {
            self.pacer.set_start_time(now);
        }
        r
    }

    /// The installed engine.
    pub fn player_lock(&self) -> (r: &T)
        requires
            self.has_player(),
        ensures
            Some(*r) == self.player.held(),
    {
        self.player.get()
    }

    /// Starts playing: the engine is told it plays and the timer fires at once.
    pub fn start(&mut self) -> (r: Vec<Command>)
        requires
            old(self).has_player(),
        ensures
            r@ == seq![Command::SetPlaying(true), Command::Timer(TimerCommand::FireNow)],
            final(self).pacer.last_fire == old(self).pacer.last_fire,
            final(self).pacer.next_delay == Some(0u64),
            final(self).player.held() == old(self).player.held(),
            final(self).timer_live == old(self).timer_live,
            final(self).pointer == old(self).pointer,
    {
        let t = self.pacer.start();
        vec![Command::SetPlaying(true), Command::Timer(t)]
    }

    /// Stops playing: the engine is told it no longer plays and the timer is
    /// parked until the next `start`.
    pub fn stop(&mut self) -> (r: Vec<Command>)
        requires
            old(self).has_player(),
        ensures
            r@ == seq![Command::SetPlaying(false), Command::Timer(TimerCommand::Park)],
            final(self).pacer.last_fire == old(self).pacer.last_fire,
            final(self).pacer.next_delay is None,
            final(self).player.held() == old(self).player.held(),
            final(self).timer_live == old(self).timer_live,
            final(self).pointer == old(self).pointer,
    {
        let t = self.pacer.stop();
        vec![Command::SetPlaying(false), Command::Timer(t)]
    }

    /// Reconciles a layout change: the surface now measures `new`, the engine
    /// has `old`. The engine is resized only when the two differ.
    pub fn resize(&self, new: ViewportDimensions, old: ViewportDimensions) -> (r: Vec<Command>)
        requires
            self.has_player(),
        ensures
            needs_resize(old, new) ==> r@ == seq![Command::Resize(new)],
            !needs_resize(old, new) ==> r@ == Seq::<Command>::empty(),
    {
        match reconcile(old, new) {
            Some(d) => vec![Command::Resize(d)],
            None => Vec::new(),
        }
    }

    /// Answers the platform's request to draw: the engine renders.
    pub fn draw_rect(&self) -> (r: Vec<Command>)
        requires
            self.has_player(),
        ensures
            r@ == seq![Command::Render],
    {
        vec![Command::Render]
    }

    /// The first half of a timer fire at `now`: the engine is advanced by the
    /// time elapsed since the last fire. Before the engine is installed the
    /// fire does nothing.
    pub fn timer_fire(&mut self, now: u64) -> (r: Vec<Command>)
        requires
            old(self).wf(),
        ensures
            !old(self).has_player() ==> r@ == Seq::<Command>::empty() && final(self).pacer == old(self).pacer,
            old(self).has_player() ==> r@ == seq![Command::Tick(old(self).pacer.elapsed(now))]
                && final(self).pacer.last_fire == Some(now)
                && final(self).pacer.next_delay == old(self).pacer.next_delay,
            final(self).player.held() == old(self).player.held(),
            final(self).timer_live == old(self).timer_live,
            final(self).pointer == old(self).pointer,
    {
        if !self.player.is_installed() {
            return Vec::new();
        }
        match self.pacer.begin_fire(now) {
            Some(dt) => vec![Command::Tick(dt)],
            None => Vec::new(),
        }
    }

    /// The second half of a timer fire: the engine asked for its next update
    /// after `next_update` microseconds, so the timer is rescheduled that far
    /// from now; if the engine wants a new frame a redraw is requested.
    pub fn timer_fired(&mut self, next_update: u64, needs_render: bool) -> (r: Vec<Command>)
        requires
            old(self).has_player(),
        ensures
            r@ == seq![Command::Timer(TimerCommand::Schedule(next_update))] + redraw_if(needs_render),
            final(self).pacer.last_fire == old(self).pacer.last_fire,
            final(self).pacer.next_delay == Some(next_update),
            final(self).player.held() == old(self).player.held(),
            final(self).timer_live == old(self).timer_live,
            final(self).pointer == old(self).pointer,
    {
        let t = self.pacer.finish_fire(next_update);
        let mut r = vec![Command::Timer(t)];
        if needs_render {
            r.push(Command::RequestRedraw);
        }
        proof {
            assert(r@ =~= seq![Command::Timer(TimerCommand::Schedule(next_update))] + redraw_if(needs_render));
        }
        r
    }

    /// The calls the engine gets for a batch of touches at a scale factor of
    /// `scale_milli` thousandths. The engine knows a single pointer, so one
    /// touch of the batch stands for all of it, and moves the pointer.
    pub fn handle_touches(&mut self, touches: &Vec<Touch>, scale_milli: u32) -> (r: Vec<PointerStep>)
        requires
            old(self).has_player(),
            touches.len() > 0,
        ensures
            r@ == batch_steps(touches@, scale_milli),
            final(self).pointer == next_pointer(old(self).pointer, touches[0].phase),
            final(self).pacer == old(self).pacer,
            final(self).player.held() == old(self).player.held(),
            final(self).timer_live == old(self).timer_live,
    {
        self.pointer = advance_pointer(self.pointer, touches[0].phase);
        translate_touch(&touches[0], scale_milli)
    }

    /// Concludes a batch of pointer calls: `answers` holds the engine's
    /// answer to each event sent. The batch was consumed when any event was;
    /// an engine that wants a new frame gets a redraw request at once.
    pub fn touches_handled(&self, answers: &Vec<bool>, needs_render: bool) -> (r: (bool, Vec<Command>))
        requires
            self.has_player(),
        ensures
            r.0 == exists|i: int| 0 <= i < answers.len() && answers[i],
            r.1@ == redraw_if(needs_render),
    {
        let consumed = any_consumed(answers);
        let mut cmds: Vec<Command> = Vec::new();
        if needs_render {
            cmds.push(Command::RequestRedraw);
        }
        proof {
            assert(cmds@ =~= redraw_if(needs_render));
        }
        (consumed, cmds)
    }

    /// The key events the engine gets for a batch of presses, in order.
    pub fn handle_presses(&self, presses: &Vec<Press>) -> (r: Vec<PlayerEvent>)
        requires
            self.has_player(),
        ensures
            r@ == press_events(presses@),
    {
        translate_presses(presses)
    }

    /// Tears the view down: the timer is invalidated if it still exists, so
    /// no fire reaches a destroyed view. Doing it again does nothing.
    pub fn invalidate(&mut self) -> (r: Vec<Command>)
        ensures
            old(self).timer_live ==> r@ == seq![Command::InvalidateTimer],
            !old(self).timer_live ==> r@ == Seq::<Command>::empty(),
            !final(self).timer_live,
            final(self).pacer == old(self).pacer,
            final(self).player.held() == old(self).player.held(),
            final(self).pointer == old(self).pointer,
    {
        if self.timer_live {
            self.timer_live = false;
            vec![Command::InvalidateTimer]
        } else {
            Vec::new()
        }
    }
}

} // verus!
