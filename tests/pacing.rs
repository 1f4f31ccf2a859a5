use player_host::controllers::{LibraryController, PlayerController, Stage};
use player_host::geometry::{reconcile, viewport_dimensions, ViewportDimensions};
use player_host::pacer::{FramePacer, TimerCommand};
use player_host::view::{Command, PlayerView};

fn installed_view(now: u64) -> PlayerView<u32> {
    let mut v: PlayerView<u32> = PlayerView::new();
    assert!(v.set_player(1, now).is_ok());
    v
}

#[test]
fn fire_ticks_by_elapsed_time_and_reschedules() {
    let mut v = installed_view(1_000);
    assert_eq!(v.timer_fire(17_667), vec![Command::Tick(16_667)]);
    assert_eq!(
        v.timer_fired(33_333, false),
        vec![Command::Timer(TimerCommand::Schedule(33_333))]
    );
    assert_eq!(v.pacer.next_delay, Some(33_333));
    assert_eq!(v.pacer.last_fire, Some(17_667));
}

#[test]
fn next_delay_follows_latest_engine_report() {
    let mut v = installed_view(0);
    let reports: [u64; 4] = [16_000, 5_000, 100_000, 0];
    let mut now: u64 = 0;
    for r in reports {
        now += 1_234;
        v.timer_fire(now);
        v.timer_fired(r, false);
        assert_eq!(v.pacer.next_delay, Some(r));
    }
}

#[test]
fn fire_requests_redraw_only_when_engine_needs_render() {
    let mut v = installed_view(0);
    v.timer_fire(10);
    assert_eq!(
        v.timer_fired(5, true),
        vec![Command::Timer(TimerCommand::Schedule(5)), Command::RequestRedraw]
    );
}

#[test]
fn fire_before_engine_is_installed_does_nothing() {
    let mut v: PlayerView<u32> = PlayerView::new();
    assert_eq!(v.timer_fire(500), Vec::<Command>::new());
    assert_eq!(v.pacer.last_fire, None);
}

#[test]
fn engine_is_installed_once() {
    let mut v = installed_view(0);
    assert_eq!(v.set_player(2, 50), Err(2));
    assert_eq!(*v.player_lock(), 1);
    assert_eq!(v.pacer.last_fire, Some(0));
}

#[test]
fn stop_parks_timer_until_start() {
    let mut v = installed_view(0);
    v.start();
    assert_eq!(
        v.stop(),
        vec![Command::SetPlaying(false), Command::Timer(TimerCommand::Park)]
    );
    assert_eq!(v.pacer.next_delay, None);
    assert_eq!(
        v.start(),
        vec![Command::SetPlaying(true), Command::Timer(TimerCommand::FireNow)]
    );
    assert_eq!(v.pacer.next_delay, Some(0));
}

#[test]
fn pacer_begin_fire_without_start_time() {
    let mut p = FramePacer::new();
    assert_eq!(p.begin_fire(99), None);
    p.set_start_time(40);
    assert_eq!(p.begin_fire(100), Some(60));
    assert_eq!(p.finish_fire(7), TimerCommand::Schedule(7));
    assert_eq!(p.next_delay, Some(7));
}

#[test]
fn clock_going_backwards_gives_zero_elapsed() {
    let mut p = FramePacer::new();
    p.set_start_time(500);
    assert_eq!(p.begin_fire(100), Some(0));
}

#[test]
fn visible_hidden_visible_stops_flushes_and_restarts_once() {
    let mut c = PlayerController::new();
    let mut v: PlayerView<u32> = PlayerView::new();
    assert!(c.view_did_load(&mut v, 9, 0).is_ok());
    assert_eq!(c.stage, Stage::Loaded);
    c.view_is_appearing(&mut v);
    assert_eq!(c.stage, Stage::Visible);
    let mut cmds: Vec<Command> = Vec::new();
    cmds.extend(c.view_will_disappear(&mut v));
    assert_eq!(c.stage, Stage::Disappearing);
    cmds.extend(c.view_did_disappear(&v));
    assert_eq!(c.stage, Stage::Hidden);
    cmds.extend(c.view_is_appearing(&mut v));
    assert_eq!(c.stage, Stage::Visible);
    assert_eq!(
        cmds,
        vec![
            Command::SetPlaying(false),
            Command::Timer(TimerCommand::Park),
            Command::FlushSharedObjects,
            Command::SetPlaying(true),
            Command::Timer(TimerCommand::FireNow),
        ]
    );
    let flushes = cmds.iter().filter(|c| **c == Command::FlushSharedObjects).count();
    let starts = cmds.iter().filter(|c| **c == Command::Timer(TimerCommand::FireNow)).count();
    let stops = cmds.iter().filter(|c| **c == Command::Timer(TimerCommand::Park)).count();
    assert_eq!((flushes, starts, stops), (1, 1, 1));
    assert_eq!(v.pacer.next_delay, Some(0));
}

#[test]
fn destroy_invalidates_timer_once() {
    let mut c = PlayerController::new();
    let mut v: PlayerView<u32> = PlayerView::new();
    assert_eq!(c.destroy(&mut v), vec![Command::InvalidateTimer]);
    assert_eq!(c.destroy(&mut v), Vec::<Command>::new());
    assert_eq!(c.stage, Stage::Destroyed);
}

#[test]
fn second_load_is_refused() {
    let mut c = PlayerController::new();
    let mut v: PlayerView<u32> = PlayerView::new();
    assert!(c.view_did_load(&mut v, 1, 0).is_ok());
    assert_eq!(c.view_did_load(&mut v, 2, 5), Err(2));
    assert_eq!(c.stage, Stage::Loaded);
    assert_eq!(*v.player_lock(), 1);
}

#[test]
fn library_logo_runs_first_frame_and_follows_screen() {
    let mut l = LibraryController::new();
    let mut logo: PlayerView<u32> = PlayerView::new();
    assert_eq!(l.view_did_load(&mut logo, 3, 0), Ok(vec![Command::RunFrame]));
    assert_eq!(*logo.player_lock(), 3);
    assert_eq!(
        l.view_is_appearing(&mut logo),
        vec![Command::SetPlaying(true), Command::Timer(TimerCommand::FireNow)]
    );
    assert_eq!(
        l.view_will_disappear(&mut logo),
        vec![Command::SetPlaying(false), Command::Timer(TimerCommand::Park)]
    );
    assert_eq!(l.view_did_disappear(&logo), vec![Command::FlushSharedObjects]);
    assert_eq!(l.stage, Stage::Hidden);
    assert_eq!(l.view_did_load(&mut logo, 4, 1), Err(4));
}

#[test]
fn draw_rect_renders() {
    let v = installed_view(0);
    assert_eq!(v.draw_rect(), vec![Command::Render]);
}

fn dims(width: u32, height: u32, scale_milli: u32) -> ViewportDimensions {
    ViewportDimensions { width, height, scale_milli }
}

#[test]
fn dimensions_are_device_pixels() {
    assert_eq!(viewport_dimensions(390_000, 844_000, 3_000), dims(1170, 2532, 3000));
    assert_eq!(viewport_dimensions(100_500, 1_000, 2_000), dims(201, 2, 2000));
    assert_eq!(viewport_dimensions(1_499, 0, 1_000), dims(1, 0, 1000));
    assert_eq!(viewport_dimensions(u32::MAX, u32::MAX, u32::MAX), dims(u32::MAX, u32::MAX, u32::MAX));
}

#[test]
fn reconcile_only_on_change() {
    let a = dims(640, 480, 2000);
    assert_eq!(reconcile(a, a), None);
    assert_eq!(reconcile(a, dims(641, 480, 2000)), Some(dims(641, 480, 2000)));
    assert_eq!(reconcile(a, dims(640, 481, 2000)), Some(dims(640, 481, 2000)));
    assert_eq!(reconcile(a, dims(640, 480, 3000)), Some(dims(640, 480, 3000)));
}

#[test]
fn identical_layout_notifications_resize_at_most_once() {
    let v = installed_view(0);
    let mut engine = dims(1, 1, 1000);
    let new = viewport_dimensions(320_000, 240_000, 2_000);
    let mut resizes = 0;
    for _ in 0..2 {
        for c in v.resize(new, engine) {
            if let Command::Resize(d) = c {
                engine = d;
                resizes += 1;
            }
        }
    }
    assert_eq!(resizes, 1);
    assert_eq!(engine, dims(640, 480, 2000));
    for _ in 0..5 {
        assert!(v.resize(new, engine).is_empty());
    }
}
