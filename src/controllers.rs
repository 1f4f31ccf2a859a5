use vstd::prelude::*;

use crate::pacer::TimerCommand;
use crate::view::{Command, PlayerView};

verus! {

/// Where a hosting screen is in its life.
#[derive(Debug, Clone, Copy, PartialEq, Eq, Structural)]
pub enum Stage {
    Created,
    Loaded,
    Visible,
    Disappearing,
    Hidden,
    Destroyed,
}

/// The screen that plays a movie full size. It installs the engine when its
/// view loads, plays it while on screen, and clears its transient state
/// when it leaves the screen.
#[derive(Debug, Clone, Copy, PartialEq, Eq, Structural)]
pub struct PlayerController {
    pub stage: Stage,
}

impl PlayerController {
    /// A screen whose view has not loaded yet.
    pub fn new() -> (r: PlayerController)
        ensures
            r.stage == Stage::Created,
    {
        PlayerController { stage: Stage::Created }
    }

    /// The view has loaded: `player`, the engine just built, is installed in
    /// `view` at time `now`. An engine is installed once; a second is handed
    /// back and the stage stays as it was.
    pub fn view_did_load<T>(&mut self, view: &mut PlayerView<T>, player: T, now: u64) -> (r: Result<(), T>)
        requires
            old(view).wf(),
        ensures
            final(view).wf(),
            !old(view).has_player() ==> r is Ok
                && final(self).stage == Stage::Loaded
                && final(view).player.held() == Some(player)
                && final(view).pacer.last_fire == Some(now)
                && final(view).pacer.next_delay == old(view).pacer.next_delay,
            old(view).has_player() ==> r == Err::<(), T>(player)
                && final(self).stage == old(self).stage
                && final(view).player.held() == old(view).player.held()
                && final(view).pacer == old(view).pacer,
            final(view).timer_live == old(view).timer_live,
    {
        let r = view.set_player(player, now);
        if r.is_ok() {
            self.stage = Stage::Loaded;
        }
        r
    }

    /// The screen is coming on: pacing starts.
    pub fn view_is_appearing<T>(&mut self, view: &mut PlayerView<T>) -> (r: Vec<Command>)
        requires
            old(view).has_player(),
        ensures
            final(self).stage == Stage::Visible,
            r@ == seq![Command::SetPlaying(true), Command::Timer(TimerCommand::FireNow)],
            final(view).pacer.next_delay == Some(0u64),
            final(view).pacer.last_fire == old(view).pacer.last_fire,
            final(view).player.held() == old(view).player.held(),
            final(view).timer_live == old(view).timer_live,
    {
        self.stage = Stage::Visible;
        view.start()
    }

    /// The screen is going off: pacing stops.
    pub fn view_will_disappear<T>(&mut self, view: &mut PlayerView<T>) -> (r: Vec<Command>)
        requires
            old(view).has_player(),
        ensures
            final(self).stage == Stage::Disappearing,
            r@ == seq![Command::SetPlaying(false), Command::Timer(TimerCommand::Park)],
            final(view).pacer.next_delay is None,
            final(view).pacer.last_fire == old(view).pacer.last_fire,
            final(view).player.held() == old(view).player.held(),
            final(view).timer_live == old(view).timer_live,
    {
        self.stage = Stage::Disappearing;
        view.stop()
    }

    /// The screen is off: the engine's transient state is cleared, so that
    /// coming back starts from a clean slate.
    pub fn view_did_disappear<T>(&mut self, view: &PlayerView<T>) -> (r: Vec<Command>)
        requires
            view.has_player(),
        ensures
            final(self).stage == Stage::Hidden,
            r@ == seq![Command::FlushSharedObjects],
    {
        self.stage = Stage::Hidden;
        vec![Command::FlushSharedObjects]
    }

    /// The screen is destroyed: the view's timer is invalidated, whether or
    /// not it ever started; doing it twice does nothing more.
    pub fn destroy<T>(&mut self, view: &mut PlayerView<T>) -> (r: Vec<Command>)
        ensures
            final(self).stage == Stage::Destroyed,
            old(view).timer_live ==> r@ == seq![Command::InvalidateTimer],
            !old(view).timer_live ==> r@ == Seq::<Command>::empty(),
            !final(view).timer_live,
            final(view).pacer == old(view).pacer,
            final(view).player.held() == old(view).player.held(),
    {
        self.stage = Stage::Destroyed;
        view.invalidate()
    }
}

/// The library screen, which shows an animated logo while on screen.
#[derive(Debug, Clone, Copy, PartialEq, Eq, Structural)]
pub struct LibraryController {
    pub stage: Stage,
}

impl LibraryController {
    /// A library screen whose view has not loaded yet.
    pub fn new() -> (r: LibraryController)
        ensures
            r.stage == Stage::Created,
    {
        LibraryController { stage: Stage::Created }
    }

    /// The view has loaded: the logo's engine is installed in `logo` at time
    /// `now`, and one frame is run at once so the first one shown is not
    /// blank.
    pub fn view_did_load<T>(&mut self, logo: &mut PlayerView<T>, player: T, now: u64) -> (r: Result<Vec<Command>, T>)
        requires
            old(logo).wf(),
        ensures
            final(logo).wf(),
            !old(logo).has_player() ==> r is Ok
                && r->Ok_0@ == seq![Command::RunFrame]
                && final(self).stage == Stage::Loaded
                && final(logo).player.held() == Some(player)
                && final(logo).pacer.last_fire == Some(now),
            old(logo).has_player() ==> r == Err::<Vec<Command>, T>(player)
                && final(self).stage == old(self).stage
                && final(logo).player.held() == old(logo).player.held()
                && final(logo).pacer == old(logo).pacer,
            final(logo).timer_live == old(logo).timer_live,
    {
        match logo.set_player(player, now) {
            Ok(()) => {
                self.stage = Stage::Loaded;
                Ok(vec![Command::RunFrame])
            },
            Err(p) => Err(p),
        }
    }

    /// The screen is coming on: the logo starts playing.
    pub fn view_is_appearing<T>(&mut self, logo: &mut PlayerView<T>) -> (r: Vec<Command>)
        requires
            old(logo).has_player(),
        ensures
            final(self).stage == Stage::Visible,
            r@ == seq![Command::SetPlaying(true), Command::Timer(TimerCommand::FireNow)],
            final(logo).pacer.next_delay == Some(0u64),
            final(logo).pacer.last_fire == old(logo).pacer.last_fire,
            final(logo).player.held() == old(logo).player.held(),
            final(logo).timer_live == old(logo).timer_live,
    {
        self.stage = Stage::Visible;
        logo.start()
    }

    /// The screen is going off: the logo stops playing.
    pub fn view_will_disappear<T>(&mut self, logo: &mut PlayerView<T>) -> (r: Vec<Command>)
        requires
            old(logo).has_player(),
        ensures
            final(self).stage == Stage::Disappearing,
            r@ == seq![Command::SetPlaying(false), Command::Timer(TimerCommand::Park)],
            final(logo).pacer.next_delay is None,
            final(logo).pacer.last_fire == old(logo).pacer.last_fire,
            final(logo).player.held() == old(logo).player.held(),
            final(logo).timer_live == old(logo).timer_live,
    {
        self.stage = Stage::Disappearing;
        logo.stop()
    }

    /// The screen is off: the logo engine's transient state is cleared.
    pub fn view_did_disappear<T>(&mut self, logo: &PlayerView<T>) -> (r: Vec<Command>)
        requires
            logo.has_player(),
        ensures
            final(self).stage == Stage::Hidden,
            r@ == seq![Command::FlushSharedObjects],
    {
        self.stage = Stage::Hidden;
        vec![Command::FlushSharedObjects]
    }
}

/// What an edit screen was opened for.
#[derive(Debug, Clone, Copy, PartialEq, Eq, Hash, Structural)]
pub enum Action {
    New,
    Edit,
}

impl Action {
    /// The title an edit screen shows for this action.
    pub fn title(&self) -> (r: &'static str)
        ensures
            *self == Action::New ==> r@ == "Add SWF"@,
            *self == Action::Edit ==> r@ == "Edit SWF"@,
    {
        match self {
            Action::New => "Add SWF",
            Action::Edit => "Edit SWF",
        }
    }
}

} // verus!
