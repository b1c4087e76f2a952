use corna::app::{App, UiEvent, UiMode, Vec2, BTN_LEFT, BTN_RIGHT};
use corna::config::{
    default_expanded_size, default_fps_cap, default_margins, default_position, default_size,
    default_theme, Anchor, Config, Margins, Position, Size,
};
use corna::features::clock::Clock;
use corna::features::pomodoro::{Pomodoro, PomodoroMode, PomodoroTrigger};
use corna::wayland::window_manager::{AnchorPoint, Layer, PositionConfig, RelativePosition, WindowId};
use corna::wayland::ActiveSurface;

#[test]
fn config_defaults() {
    assert_eq!(default_position(), Position { anchor: Anchor::TopRight, exclusive_zone: 0 });
    assert_eq!(default_margins(), Margins { top: 8, right: 8, bottom: 8, left: 8 });
    assert_eq!(default_size(), Size { width: 150, height: 60 });
    assert_eq!(default_expanded_size(), Size { width: 300, height: 120 });
    let theme = default_theme();
    assert_eq!(theme.background, "#1a1a1a");
    assert_eq!(theme.foreground, "#ffffff");
    assert_eq!(theme.accent, "#4a9eff");
    assert_eq!(default_fps_cap(), 60);
    let config = Config::default();
    assert_eq!(config.position, default_position());
    assert_eq!(config.margins, default_margins());
    assert_eq!(config.collapsed_size, default_size());
    assert_eq!(config.expanded_size, default_expanded_size());
    assert_eq!(config.theme.accent, "#4a9eff");
    assert_eq!(config.fps_cap, 60);
    assert!(config.animations_enabled);
    let copy = config.clone();
    assert_eq!(copy.theme.background, "#1a1a1a");
    assert_eq!(copy.expanded_size, Size { width: 300, height: 120 });
}

#[test]
fn app_starts_collapsed_and_idle() {
    let app = App::new(Config::default());
    assert_eq!(app.mode, UiMode::Collapsed);
    assert_eq!(app.logical_size, [150, 60]);
    assert_eq!(app.buffer_size, [150, 60]);
    assert!(!app.hover);
    assert_eq!(app.click_count, 0);
    assert_eq!(app.pomodoro.mode(), PomodoroMode::Idle);
    assert_eq!(app.screen_size, None);
    assert!(app.show_seconds);
    assert_eq!(app.color_mode, 0);
    assert_eq!(app.get_current_size(), [220, 60]);
}

#[test]
fn hover_follows_enter_and_leave() {
    let mut app = App::new(Config::default());
    app.handle_event(UiEvent::PointerEnter { pos: Vec2 { x: 1, y: 1 } });
    assert!(app.hover);
    app.handle_event(UiEvent::PointerMove { pos: Vec2 { x: 2, y: 2 } });
    assert!(app.hover);
    app.handle_event(UiEvent::PointerLeave);
    assert!(!app.hover);
}

#[test]
fn primary_click_toggles_the_seconds() {
    let mut app = App::new(Config::default());
    let click = UiEvent::PointerDown { pos: Vec2 { x: 0, y: 0 }, button: BTN_LEFT };
    app.handle_event(click);
    assert!(!app.show_seconds);
    assert_eq!(app.get_current_size(), [150, 60]);
    app.handle_event(UiEvent::PointerUp);
    app.handle_event(click);
    assert!(app.show_seconds);
    assert_eq!(app.pomodoro.mode(), PomodoroMode::Idle);
}

#[test]
fn secondary_click_starts_and_stops_the_timer() {
    let mut app = App::new(Config::default());
    let click = UiEvent::PointerDown { pos: Vec2 { x: 0, y: 0 }, button: BTN_RIGHT };
    app.handle_event(click);
    assert_eq!(app.pomodoro.mode(), PomodoroMode::Counting);
    assert!(app.show_seconds);
    app.handle_event(click);
    assert_eq!(app.pomodoro.mode(), PomodoroMode::Idle);
    app.handle_event(click);
    app.pomodoro.apply(PomodoroTrigger::Expired);
    app.handle_event(click);
    assert_eq!(app.pomodoro.mode(), PomodoroMode::Completion);
    app.handle_event(UiEvent::PointerDown { pos: Vec2 { x: 0, y: 0 }, button: 0x112 });
    app.handle_event(UiEvent::Key(30));
    assert_eq!(app.pomodoro.mode(), PomodoroMode::Completion);
    assert!(app.show_seconds);
}

#[test]
fn scroll_over_the_clock_cycles_the_colour_mode() {
    let mut app = App::new(Config::default());
    let up = UiEvent::Scroll { delta: 1, surface: Some(ActiveSurface::Clock) };
    let down = UiEvent::Scroll { delta: -1, surface: Some(ActiveSurface::Clock) };
    app.handle_event(down);
    assert_eq!(app.color_mode, 10);
    app.handle_event(up);
    assert_eq!(app.color_mode, 0);
    for expected in 1..=10u8 {
        app.handle_event(up);
        assert_eq!(app.color_mode, expected);
    }
    app.handle_event(up);
    assert_eq!(app.color_mode, 0);
    app.handle_event(UiEvent::Scroll { delta: 0, surface: Some(ActiveSurface::Clock) });
    assert_eq!(app.color_mode, 0);
    app.handle_event(UiEvent::Scroll { delta: 1, surface: Some(ActiveSurface::Plasma) });
    app.handle_event(UiEvent::Scroll { delta: 1, surface: None });
    assert_eq!(app.color_mode, 0);
    assert_eq!(app.pomodoro.duration_index(), 0);
}

#[test]
fn scroll_over_the_timer_cycles_the_duration() {
    let mut app = App::new(Config::default());
    assert_eq!(app.pomodoro.duration(), 1800);
    app.handle_event(UiEvent::Scroll { delta: 1, surface: Some(ActiveSurface::Timer) });
    assert_eq!(app.pomodoro.duration_index(), 1);
    assert_eq!(app.pomodoro.duration(), 1500);
    app.handle_event(UiEvent::Scroll { delta: -1, surface: Some(ActiveSurface::Timer) });
    app.handle_event(UiEvent::Scroll { delta: -1, surface: Some(ActiveSurface::Timer) });
    assert_eq!(app.pomodoro.duration_index(), 5);
    assert_eq!(app.pomodoro.duration(), 300);
    assert_eq!(app.color_mode, 0);
}

#[test]
fn events_are_applied_in_order() {
    let mut app = App::new(Config::default());
    let events = vec![
        UiEvent::PointerEnter { pos: Vec2 { x: 0, y: 0 } },
        UiEvent::PointerDown { pos: Vec2 { x: 0, y: 0 }, button: BTN_RIGHT },
        UiEvent::Scroll { delta: 1, surface: Some(ActiveSurface::Timer) },
        UiEvent::PointerDown { pos: Vec2 { x: 0, y: 0 }, button: BTN_LEFT },
        UiEvent::PointerLeave,
    ];
    app.handle_events(&events);
    assert!(!app.hover);
    assert!(!app.show_seconds);
    assert_eq!(app.pomodoro.mode(), PomodoroMode::Counting);
    assert_eq!(app.pomodoro.duration_index(), 1);
    let mut one_by_one = App::new(Config::default());
    for event in &events {
        one_by_one.handle_event(*event);
    }
    assert_eq!(one_by_one.pomodoro.mode(), app.pomodoro.mode());
    assert_eq!(one_by_one.show_seconds, app.show_seconds);
    app.handle_events(&Vec::new());
    assert_eq!(app.pomodoro.duration_index(), 1);
}

#[test]
fn expand_animation_modes() {
    let mut app = App::new(Config::default());
    app.update(true);
    assert_eq!(app.mode, UiMode::Collapsed);
    app.toggle_expand();
    assert_eq!(app.mode, UiMode::Expanding);
    app.toggle_expand();
    assert_eq!(app.mode, UiMode::Expanding);
    app.update(false);
    assert_eq!(app.mode, UiMode::Expanding);
    assert_eq!(app.logical_size, [150, 60]);
    app.update(true);
    assert_eq!(app.mode, UiMode::Expanded);
    assert_eq!(app.logical_size, [300, 120]);
    app.toggle_expand();
    assert_eq!(app.mode, UiMode::Collapsing);
    app.update(true);
    assert_eq!(app.mode, UiMode::Collapsed);
    assert_eq!(app.logical_size, [150, 60]);
}

#[test]
fn desired_windows_follow_the_timer_mode() {
    let mut app = App::new(Config::default());
    let desired = app.desired_windows();
    assert!(desired.contains(WindowId::Clock));
    assert!(!desired.contains(WindowId::Timer));
    assert!(!desired.contains(WindowId::Plasma));
    let clock = desired.get(WindowId::Clock).unwrap();
    assert_eq!(clock.id, WindowId::Clock);
    assert_eq!(clock.size, [220, 60]);
    assert!(matches!(
        clock.position,
        PositionConfig::Anchored { anchor: AnchorPoint::TopRight, margin: [0, 0, 0, 0] }
    ));
    assert_eq!(clock.layer, Layer::Overlay);
    assert_eq!(clock.name, "corna");

    app.start_pomodoro();
    let desired = app.desired_windows();
    assert!(desired.contains(WindowId::Clock) && desired.contains(WindowId::Timer));
    assert!(!desired.contains(WindowId::Plasma));
    let timer = desired.get(WindowId::Timer).unwrap();
    assert_eq!(timer.size, [80, 30]);
    assert!(matches!(
        timer.position,
        PositionConfig::RelativeTo {
            window: WindowId::Clock,
            position: RelativePosition::LeftOf { gap: 10 },
        }
    ));
    assert_eq!(timer.layer, Layer::Top);
    assert_eq!(timer.name, "corna-timer");

    app.pomodoro.trigger_completion();
    let desired = app.desired_windows();
    assert!(desired.contains(WindowId::Clock) && desired.contains(WindowId::Plasma));
    assert!(!desired.contains(WindowId::Timer));
    let plasma = desired.get(WindowId::Plasma).unwrap();
    assert_eq!(plasma.size, [1920, 1080]);
    assert_eq!(plasma.layer, Layer::Overlay);
    assert_eq!(plasma.name, "corna-plasma");
    app.set_screen_size([2560, 1440]);
    assert_eq!(app.desired_windows().get(WindowId::Plasma).unwrap().size, [2560, 1440]);
}

#[test]
fn pomodoro_transitions() {
    let mut timer = Pomodoro::new();
    assert_eq!(timer.mode(), PomodoroMode::Idle);
    timer.apply(PomodoroTrigger::Expired);
    timer.apply(PomodoroTrigger::Complete);
    timer.apply(PomodoroTrigger::EffectDone);
    assert_eq!(timer.mode(), PomodoroMode::Idle);
    timer.start();
    assert_eq!(timer.mode(), PomodoroMode::Counting);
    timer.apply(PomodoroTrigger::EffectDone);
    assert_eq!(timer.mode(), PomodoroMode::Counting);
    timer.trigger_completion();
    assert_eq!(timer.mode(), PomodoroMode::Completion);
    timer.trigger_completion();
    timer.apply(PomodoroTrigger::Expired);
    assert_eq!(timer.mode(), PomodoroMode::Completion);
    timer.apply(PomodoroTrigger::EffectDone);
    assert_eq!(timer.mode(), PomodoroMode::Idle);
    timer.start();
    timer.stop();
    assert_eq!(timer.mode(), PomodoroMode::Idle);
    timer.start();
    timer.apply(PomodoroTrigger::Expired);
    timer.stop();
    assert_eq!(timer.mode(), PomodoroMode::Idle);
}

#[test]
fn pomodoro_durations_cycle() {
    let mut timer = Pomodoro::new();
    let mut seen = vec![timer.duration()];
    for _ in 0..6 {
        seen.push(timer.cycle_duration(1));
    }
    assert_eq!(seen, vec![1800, 1500, 1200, 900, 600, 300, 1800]);
    assert_eq!(timer.cycle_duration(-1), 300);
    assert_eq!(timer.cycle_duration(0), 600);
    assert_eq!(timer.duration_index(), 4);
    assert_eq!(timer.duration(), 600);
}

#[test]
fn pomodoro_digits() {
    let mut timer = Pomodoro::new();
    assert_eq!(timer.digits(), ([0, 0], [0, 0]));
    assert!(!timer.update(1499));
    assert_eq!(timer.digits(), ([2, 4], [5, 9]));
    timer.start();
    assert!(timer.update(1499));
    assert!(!timer.update(1499));
    assert!(timer.update(1498));
    assert_eq!(timer.digits(), ([2, 4], [5, 8]));
    assert!(timer.update(0));
    assert_eq!(timer.digits(), ([0, 0], [0, 0]));
    timer.start();
    assert!(timer.update(0));
    assert!(timer.update(6000 * 60 + 7));
    assert_eq!(timer.digits(), ([88, 0], [0, 7]));
}

#[test]
fn clock_shows_a_twelve_hour_face() {
    let mut clock = Clock::new();
    assert_eq!(clock.digits(), ([0, 0], [0, 0], [0, 0]));
    assert!(!clock.is_pm());
    assert!(clock.set_time(0, 5, 9));
    assert_eq!(clock.digits(), ([1, 2], [0, 5], [0, 9]));
    assert!(!clock.is_pm());
    assert!(!clock.set_time(13, 45, 9));
    assert_eq!(clock.digits(), ([1, 2], [0, 5], [0, 9]));
    assert!(clock.set_time(13, 45, 10));
    assert_eq!(clock.digits(), ([0, 1], [4, 5], [1, 0]));
    assert!(clock.is_pm());
    assert!(clock.set_time(12, 0, 0));
    assert_eq!(clock.digits(), ([1, 2], [0, 0], [0, 0]));
    assert!(clock.is_pm());
    assert!(clock.set_time(23, 59, 59));
    assert_eq!(clock.digits(), ([1, 1], [5, 9], [5, 9]));
    assert!(clock.set_time(11, 59, 58));
    assert_eq!(clock.digits(), ([1, 1], [5, 9], [5, 8]));
    assert!(!clock.is_pm());
}

#[test]
fn clock_reads_the_local_time() {
    let mut clock = Clock::new();
    let ticked = clock.update();
    let (hour, minute, second) = clock.digits();
    if ticked {
        let h = hour[0] * 10 + hour[1];
        assert!((1..=12).contains(&h));
        assert!(minute[0] < 6 && minute[1] < 10);
        assert!(second[0] < 6 && second[1] < 10);
    } else {
        assert_eq!((hour, minute, second), ([0, 0], [0, 0], [0, 0]));
    }
    let before = clock.digits();
    if !clock.update() {
        assert_eq!(clock.digits(), before);
    }
}
