//! The application state that the overlay follows: input events, the
//! expand animation mode and the clock settings.

use vstd::prelude::*;

use crate::config::Config;
use crate::features::pomodoro::{
    cycled, triggered, Pomodoro, PomodoroMode, PomodoroTrigger, PomodoroView,
};
use crate::wayland::role_map::RoleMap;
use crate::wayland::window_manager::{
    AnchorPoint, Layer, PositionConfig, RelativePosition, WindowConfig, WindowId,
};
use crate::wayland::{ActiveSurface, DEFAULT_SCREEN_HEIGHT, DEFAULT_SCREEN_WIDTH};

verus! {

/// The code of the primary pointer button.
pub const BTN_LEFT: u32 = 0x110;

/// The code of the secondary pointer button.
pub const BTN_RIGHT: u32 = 0x111;

/// How far the clock face is expanded.
#[derive(Debug, Clone, Copy, PartialEq, Eq, Structural)]
pub enum UiMode {
    Collapsed,
    Expanding,
    Expanded,
    Collapsing,
}

/// A position on a surface, in 1/256 of a pixel.
#[derive(Debug, Clone, Copy, PartialEq, Eq, Structural)]
pub struct Vec2 {
    pub x: i32,
    pub y: i32,
}

/// An input event, as the application sees it.
#[derive(Debug, Clone, Copy, PartialEq, Eq, Structural)]
pub enum UiEvent {
    PointerEnter { pos: Vec2 },
    PointerLeave,
    PointerMove { pos: Vec2 },
    PointerDown { pos: Vec2, button: u32 },
    PointerUp,
    /// One notch of the wheel: `delta` is 1 for up and -1 for down.
    /// `surface` is the window under the pointer, if any.
    Scroll { delta: i32, surface: Option<ActiveSurface> },
    Key(u32),
}

/// The number of colour modes of the clock.
pub const NUM_MODES: u8 = 11;

/// The width of the timer window in pixels.
pub const TIMER_WIDTH: u32 = 80;

/// The height of the timer window in pixels.
pub const TIMER_HEIGHT: u32 = 30;

/// The gap between the timer window and the clock window in pixels.
pub const TIMER_GAP: i32 = 10;

/// The state of the application.
#[derive(Debug)]
pub struct App {
    pub config: Config,
    pub mode: UiMode,
    pub logical_size: [u32; 2],
    pub buffer_size: [u32; 2],
    pub hover: bool,
    pub click_count: u32,
    pub pomodoro: Pomodoro,
    pub screen_size: Option<[u32; 2]>,
    pub show_seconds: bool,
    pub color_mode: u8,
}

/// The state of the application as plain values, without the settings.
pub struct AppView {
    pub mode: UiMode,
    pub logical_size: [u32; 2],
    pub buffer_size: [u32; 2],
    pub hover: bool,
    pub click_count: u32,
    pub pomodoro: PomodoroView,
    pub screen_size: Option<[u32; 2]>,
    pub show_seconds: bool,
    pub color_mode: u8,
}

impl View for App {
    type V = AppView;

    open spec fn view(&self) -> AppView {
        AppView {
            mode: self.mode,
            logical_size: self.logical_size,
            buffer_size: self.buffer_size,
            hover: self.hover,
            click_count: self.click_count,
            pomodoro: self.pomodoro@,
            screen_size: self.screen_size,
            show_seconds: self.show_seconds,
            color_mode: self.color_mode,
        }
    }
}

/// The colour mode after a scroll step over the clock: the next one for a
/// step up, the one before for a step down, around the ends.
pub open spec fn color_mode_after(mode: u8, delta: i32) -> u8 {
    if delta > 0 {
        ((mode + 1) % (NUM_MODES as int)) as u8
    } else if delta < 0 {
        if mode == 0 {
            (NUM_MODES - 1) as u8
        } else {
            (mode - 1) as u8
        }
    } else {
        mode
    }
}

/// The timer after a press of the secondary button: an idle timer starts
/// and a counting one stops.
pub open spec fn pomodoro_toggled(timer: PomodoroView) -> PomodoroView {
    match timer.mode {
        PomodoroMode::Idle => triggered(timer, PomodoroTrigger::Start),
        PomodoroMode::Counting => triggered(timer, PomodoroTrigger::Stop),
        _ => timer,
    }
}

/// The state after an input event.
///
/// Entering and leaving set and clear the hover. A press of the secondary
/// button starts or stops the timer; one of the primary button shows or
/// hides the seconds. A scroll step over the clock cycles the colour mode,
/// one over the timer its duration. Nothing else changes anything.
pub open spec fn after_event(app: AppView, event: UiEvent) -> AppView {
    match event {
        UiEvent::PointerEnter { .. } => AppView { hover: true, ..app },
        UiEvent::PointerLeave => AppView { hover: false, ..app },
        UiEvent::PointerDown { button, .. } => if button == BTN_RIGHT {
            AppView { pomodoro: pomodoro_toggled(app.pomodoro), ..app }
        } else if button == BTN_LEFT {
            AppView { show_seconds: !app.show_seconds, ..app }
        } else {
            app
        },
        UiEvent::Scroll { delta, surface: Some(ActiveSurface::Clock) } => AppView {
            color_mode: color_mode_after(app.color_mode, delta),
            ..app
        },
        UiEvent::Scroll { delta, surface: Some(ActiveSurface::Timer) } => AppView {
            pomodoro: cycled(app.pomodoro, delta),
            ..app
        },
        _ => app,
    }
}

/// The state after a series of input events, applied in order.
pub open spec fn after_events(app: AppView, events: Seq<UiEvent>) -> AppView
    decreases events.len(),
{
    if events.len() == 0 {
        app
    } else {
        after_event(after_events(app, events.drop_last()), events.last())
    }
}

/// The state after the expand animation has come to an end or not: an
/// expanding clock is then expanded and takes the expanded size, a
/// collapsing one is collapsed and takes the collapsed size.
pub open spec fn after_animation(app: AppView, config: Config, complete: bool) -> AppView {
    if !complete {
        app
    } else {
        match app.mode {
            UiMode::Expanding => AppView {
                mode: UiMode::Expanded,
                logical_size: [config.expanded_size.width, config.expanded_size.height],
                ..app
            },
            UiMode::Collapsing => AppView {
                mode: UiMode::Collapsed,
                logical_size: [config.collapsed_size.width, config.collapsed_size.height],
                ..app
            },
            _ => app,
        }
    }
}

/// The roles of the windows to show in a mode of the timer: the clock
/// always, the timer while counting, the effect while it plays.
pub open spec fn desired_roles(mode: PomodoroMode) -> Set<WindowId> {
    match mode {
        PomodoroMode::Counting => set![WindowId::Clock, WindowId::Timer],
        PomodoroMode::Completion => set![WindowId::Clock, WindowId::Plasma],
        _ => set![WindowId::Clock],
    }
}

/// The size of the clock window: wider while the seconds show.
pub open spec fn clock_size(show_seconds: bool) -> [u32; 2] {
    if show_seconds {
        [220u32, 60u32]
    } else {
        [150u32, 60u32]
    }
}

/// Whether a descriptor is that of the clock window: in the top right
/// corner without margins, on the overlay layer.
pub open spec fn is_clock_config(config: WindowConfig, show_seconds: bool) -> bool {
    &&& config.id == WindowId::Clock
    &&& config.size == clock_size(show_seconds)
    &&& config.position matches PositionConfig::Anchored { anchor, margin }
    &&& anchor == AnchorPoint::TopRight
    &&& margin == [0i32, 0i32, 0i32, 0i32]
    &&& config.layer == Layer::Overlay
    &&& config.name@ == "corna"@
}

/// Whether a descriptor is that of the timer window: left of the clock
/// with a gap, on the top layer.
pub open spec fn is_timer_config(config: WindowConfig) -> bool {
    &&& config.id == WindowId::Timer
    &&& config.size == [TIMER_WIDTH, TIMER_HEIGHT]
    &&& config.position == (PositionConfig::RelativeTo {
        window: WindowId::Clock,
        position: RelativePosition::LeftOf { gap: TIMER_GAP },
    })
    &&& config.layer == Layer::Top
    &&& config.name@ == "corna-timer"@
}

/// Whether a descriptor is that of the effect window: as large as the
/// screen, from its top left corner, on the overlay layer.
pub open spec fn is_plasma_config(config: WindowConfig, screen: [u32; 2]) -> bool {
    &&& config.id == WindowId::Plasma
    &&& config.size == screen
    &&& config.position matches PositionConfig::Anchored { anchor, margin }
    &&& anchor == AnchorPoint::TopLeft
    &&& margin == [0i32, 0i32, 0i32, 0i32]
    &&& config.layer == Layer::Overlay
    &&& config.name@ == "corna-plasma"@
}

impl App {
    /// The state at start: collapsed, at the collapsed size of the
    /// settings, with the seconds showing and an idle timer.
    pub fn new(config: Config) -> (app: Self)
        ensures
            app.config == config,
            app@ == (AppView {
                mode: UiMode::Collapsed,
                logical_size: [config.collapsed_size.width, config.collapsed_size.height],
                buffer_size: [config.collapsed_size.width, config.collapsed_size.height],
                hover: false,
                click_count: 0,
                pomodoro: PomodoroView {
                    mode: PomodoroMode::Idle,
                    duration_index: 0,
                    minute: (0, 0),
                    second: (0, 0),
                    last_sec: -1,
                },
                screen_size: None,
                show_seconds: true,
                color_mode: 0,
            }),
    {
        let logical_size: [u32; 2] = [config.collapsed_size.width, config.collapsed_size.height];
        App {
            config,
            mode: UiMode::Collapsed,
            logical_size,
            buffer_size: logical_size,
            hover: false,
            click_count: 0,
            pomodoro: Pomodoro::new(),
            screen_size: None,
            show_seconds: true,
            color_mode: 0,
        }
    }

    /// Takes note of the screen size.
    pub fn set_screen_size(&mut self, size: [u32; 2])
        ensures
            final(self)@ == (AppView { screen_size: Some(size), ..old(self)@ }),
            final(self).config == old(self).config,
    {
        self.screen_size = Some(size);
    }

    /// Starts the timer.
    pub fn start_pomodoro(&mut self)
        ensures
            final(self)@ == (AppView {
                pomodoro: triggered(old(self)@.pomodoro, PomodoroTrigger::Start),
                ..old(self)@
            }),
            final(self).config == old(self).config,
    {
        self.pomodoro.start();
    }

    /// Starts to expand a collapsed clock and to collapse an expanded one.
    /// While either is under way nothing changes.
    pub fn toggle_expand(&mut self)
        ensures
            final(self)@ == (AppView {
                mode: match old(self)@.mode {
                    UiMode::Collapsed => UiMode::Expanding,
                    UiMode::Expanded => UiMode::Collapsing,
                    other => other,
                },
                ..old(self)@
            }),
            final(self).config == old(self).config,
    {
        match self.mode {
            UiMode::Collapsed => {
                self.mode = UiMode::Expanding;
            },
            UiMode::Expanded => {
                self.mode = UiMode::Collapsing;
            },
            _ => {},
        }
    }

    /// Applies an input event.
    pub fn handle_event(&mut self, event: UiEvent)
        ensures
            final(self)@ == after_event(old(self)@, event),
            final(self).config == old(self).config,
    {
        match event {
            UiEvent::PointerEnter { .. } => {
                self.hover = true;
            },
            UiEvent::PointerLeave => {
                self.hover = false;
            },
            UiEvent::PointerDown { button, .. } => {
                if button == BTN_RIGHT {
                    match self.pomodoro.mode() {
                        PomodoroMode::Idle => {
                            self.start_pomodoro();
                        },
                        PomodoroMode::Counting => {
                            self.pomodoro.stop();
                        },
                        _ => {},
                    }
                    return ;
                }
                if button == BTN_LEFT {
                    self.show_seconds = !self.show_seconds;
                }
            },
            UiEvent::Scroll { delta, surface } => {
                match surface {
                    Some(ActiveSurface::Clock) => {
                        if delta > 0 {
                            let next: u16 = (self.color_mode as u16 + 1) % (NUM_MODES as u16);
                            self.color_mode = next as u8;
                        } else if delta < 0 {
                            self.color_mode = if self.color_mode == 0 {
                                NUM_MODES - 1
                            } else {
                                self.color_mode - 1
                            };
                        }
                    },
                    Some(ActiveSurface::Timer) => {
                        let _ = self.pomodoro.cycle_duration(delta);
                    },
                    _ => {},
                }
            },
            UiEvent::Key(_key) => {},
            _ => {},
        }
    }

    /// Applies a series of input events in order.
    pub fn handle_events(&mut self, events: &Vec<UiEvent>)
        ensures
            final(self)@ == after_events(old(self)@, events@),
            final(self).config == old(self).config,
    {
        let mut i: usize = 0;
        while i < events.len()
            invariant
                0 <= i <= events.len(),
                self@ == after_events(old(self)@, events@.take(i as int)),
                self.config == old(self).config,
            decreases events.len() - i,
        {
            self.handle_event(events[i]);
            proof {
                let next = events@.take(i as int + 1);
                assert(next.drop_last() =~= events@.take(i as int));
                assert(next.last() == events@[i as int]);
            }
            i += 1;
        }
        proof {
            assert(events@.take(i as int) =~= events@);
        }
    }

    /// Ends the expand animation once it has played to its end.
    pub fn update(&mut self, animation_complete: bool)
        ensures
            final(self)@ == after_animation(old(self)@, old(self).config, animation_complete),
            final(self).config == old(self).config,
    {
        if animation_complete {
            match self.mode {
                UiMode::Expanding => {
                    self.mode = UiMode::Expanded;
                    self.logical_size = [
                        self.config.expanded_size.width,
                        self.config.expanded_size.height,
                    ];
                },
                UiMode::Collapsing => {
                    self.mode = UiMode::Collapsed;
                    self.logical_size = [
                        self.config.collapsed_size.width,
                        self.config.collapsed_size.height,
                    ];
                },
                _ => {},
            }
        }
    }

    /// The size of the clock window: 220 wide while the seconds show, else
    /// 150, and always 60 high.
    pub fn get_current_size(&self) -> (size: [u32; 2])
        ensures
            size == clock_size(self.show_seconds),
    {
        let width: u32 = if self.show_seconds { 220 } else { 150 };
        [width, 60]
    }

    /// The screen size to lay windows out on: the known one, or the
    /// default while none is known.
    pub open spec fn layout_screen(&self) -> [u32; 2] {
        match self.screen_size {
            Some(size) => size,
            None => [DEFAULT_SCREEN_WIDTH, DEFAULT_SCREEN_HEIGHT],
        }
    }

    /// The windows to show in the current mode of the timer, each with its
    /// descriptor.
    pub fn desired_windows(&self) -> (desired: RoleMap<WindowConfig>)
        ensures
            desired@.dom() == desired_roles(self.pomodoro@.mode),
            is_clock_config(desired@[WindowId::Clock], self.show_seconds),
            desired@.contains_key(WindowId::Timer) ==> is_timer_config(desired@[WindowId::Timer]),
            desired@.contains_key(WindowId::Plasma) ==> is_plasma_config(
                desired@[WindowId::Plasma],
                self.layout_screen(),
            ),
    {
        let mut desired: RoleMap<WindowConfig> = RoleMap::new();
        desired.insert(
            WindowId::Clock,
            WindowConfig {
                id: WindowId::Clock,
                size: self.get_current_size(),
                position: PositionConfig::Anchored {
                    anchor: AnchorPoint::TopRight,
                    margin: [0, 0, 0, 0],
                },
                layer: Layer::Overlay,
                name: "corna".to_owned(),
            },
        );
        match self.pomodoro.mode() {
            PomodoroMode::Counting => {
                desired.insert(
                    WindowId::Timer,
                    WindowConfig {
                        id: WindowId::Timer,
                        size: [TIMER_WIDTH, TIMER_HEIGHT],
                        position: PositionConfig::RelativeTo {
                            window: WindowId::Clock,
                            position: RelativePosition::LeftOf { gap: TIMER_GAP },
                        },
                        layer: Layer::Top,
                        name: "corna-timer".to_owned(),
                    },
                );
            },
            PomodoroMode::Completion => {
                let screen: [u32; 2] = match self.screen_size {
                    Some(size) => size,
                    None => [DEFAULT_SCREEN_WIDTH, DEFAULT_SCREEN_HEIGHT],
                };
                desired.insert(
                    WindowId::Plasma,
                    WindowConfig {
                        id: WindowId::Plasma,
                        size: screen,
                        position: PositionConfig::Anchored {
                            anchor: AnchorPoint::TopLeft,
                            margin: [0, 0, 0, 0],
                        },
                        layer: Layer::Overlay,
                        name: "corna-plasma".to_owned(),
                    },
                );
            },
            _ => {},
        }
        assert(desired@.dom() =~= desired_roles(self.pomodoro@.mode));
        desired
    }
}

} // verus!
