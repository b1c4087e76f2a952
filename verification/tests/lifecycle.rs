use corna::app::{App, UiEvent, Vec2, BTN_RIGHT};
use corna::config::Config;
use corna::features::pomodoro::{PomodoroMode, PomodoroTrigger};
use corna::frame::plan_windows;
use corna::wayland::egl::TeardownStep;
use corna::wayland::window_manager::{AnchorPoint, Layer, PositionConfig, RelativePosition, WindowConfig, WindowError, WindowId, WindowManager};
use corna::wayland::role_map::RoleMap;
use corna::wayland::reconcile::{WindowOp};
use corna::wayland::{LayerSurfaceEvent, WaylandState};

fn lifecycle_config(id: WindowId) -> WindowConfig {
    let (size, position, layer) = match id {
        WindowId::Clock => (
            [220, 60],
            PositionConfig::Anchored { anchor: AnchorPoint::TopRight, margin: [0, 0, 0, 0] },
            Layer::Overlay,
        ),
        WindowId::Timer => (
            [80, 30],
            PositionConfig::RelativeTo {
                window: WindowId::Clock,
                position: RelativePosition::LeftOf { gap: 10 },
            },
            Layer::Top,
        ),
        WindowId::Plasma => (
            [1920, 1080],
            PositionConfig::Anchored { anchor: AnchorPoint::TopLeft, margin: [0, 0, 0, 0] },
            Layer::Overlay,
        ),
    };
    WindowConfig { id, size, position, layer, name: String::from("test") }
}

fn lifecycle_ids(id: WindowId) -> (u32, u32) {
    match id {
        WindowId::Clock => (10, 11),
        WindowId::Timer => (20, 21),
        WindowId::Plasma => (30, 31),
    }
}

fn lifecycle_handshake(state: &mut WaylandState, id: WindowId) {
    let (surface, layer_surface) = lifecycle_ids(id);
    state.attach_surface(id, surface, layer_surface);
    state.on_layer_surface(
        layer_surface,
        LayerSurfaceEvent::Configure { serial: 7, width: 0, height: 0 },
    );
}

fn lifecycle_create(manager: &mut WindowManager, state: &mut WaylandState, id: WindowId) {
    lifecycle_handshake(state, id);
    assert!(manager.create_window(lifecycle_config(id), state).is_ok());
}

fn lifecycle_desired(ids: &[WindowId]) -> RoleMap<WindowConfig> {
    let mut desired = RoleMap::new();
    for id in ids {
        desired.insert(*id, lifecycle_config(*id));
    }
    desired
}

fn lifecycle_perform(
    manager: &mut WindowManager,
    state: &mut WaylandState,
    desired: &RoleMap<WindowConfig>,
) -> Vec<WindowOp> {
    let ops = manager.reconcile(desired);
    for op in &ops {
        match op {
            WindowOp::Create(id) => {
                lifecycle_handshake(state, *id);
                let config = desired.get(*id).unwrap().clone();
                assert!(manager.create_window(config, state).is_ok());
            }
            WindowOp::Destroy(id) => {
                assert!(!manager.destroy_window(*id).is_empty());
                state.detach_surface(*id);
            }
        }
    }
    ops
}

fn lifecycle_live(manager: &WindowManager) -> Vec<WindowId> {
    [WindowId::Clock, WindowId::Timer, WindowId::Plasma]
        .into_iter()
        .filter(|id| manager.is_live(*id))
        .collect()
}

#[test]
fn create_window_enters_the_registry() {
    let mut state = WaylandState::new();
    let mut manager = WindowManager::new([1920, 1080]);
    lifecycle_handshake(&mut state, WindowId::Clock);
    let pos = manager.create_window(lifecycle_config(WindowId::Clock), &state);
    assert_eq!(pos, Ok([1700, 0]));
    let window = manager.get_window(WindowId::Clock).unwrap();
    assert_eq!(window.surface, 10);
    assert_eq!(window.layer_surface, 11);
    assert_eq!(window.config.id, WindowId::Clock);
    assert_eq!(window.config.size, [220, 60]);
    assert_eq!(window.actual_position, [1700, 0]);
    let context = manager.contexts().get(WindowId::Clock).unwrap();
    assert_eq!(context.role(), WindowId::Clock);
    assert!(context.owns_display());
    assert_eq!(context.surface_size(), Some([220, 60]));
    assert_eq!(manager.current(), Some(WindowId::Clock));
    assert_eq!(manager.owner(), Some(WindowId::Clock));
}

#[test]
fn create_window_needs_the_configure_handshake() {
    let mut state = WaylandState::new();
    let mut manager = WindowManager::new([1920, 1080]);
    assert_eq!(
        manager.create_window(lifecycle_config(WindowId::Clock), &state),
        Err(WindowError::NotConfigured)
    );
    state.attach_surface(WindowId::Clock, 10, 11);
    assert_eq!(
        manager.create_window(lifecycle_config(WindowId::Clock), &state),
        Err(WindowError::NotConfigured)
    );
    assert!(!manager.is_live(WindowId::Clock));
    state.on_layer_surface(11, LayerSurfaceEvent::Configure { serial: 1, width: 220, height: 60 });
    assert!(manager.create_window(lifecycle_config(WindowId::Clock), &state).is_ok());
}

#[test]
fn create_window_handshake_of_another_window_does_not_count() {
    let mut state = WaylandState::new();
    let mut manager = WindowManager::new([1920, 1080]);
    lifecycle_handshake(&mut state, WindowId::Clock);
    state.attach_surface(WindowId::Timer, 20, 21);
    assert_eq!(
        manager.create_window(lifecycle_config(WindowId::Timer), &state),
        Err(WindowError::NotConfigured)
    );
}

#[test]
fn create_window_twice_is_refused() {
    let mut state = WaylandState::new();
    let mut manager = WindowManager::new([1920, 1080]);
    lifecycle_create(&mut manager, &mut state, WindowId::Clock);
    assert_eq!(
        manager.create_window(lifecycle_config(WindowId::Clock), &state),
        Err(WindowError::AlreadyLive)
    );
}

#[test]
fn create_window_rejects_an_empty_size() {
    let mut state = WaylandState::new();
    let mut manager = WindowManager::new([1920, 1080]);
    lifecycle_handshake(&mut state, WindowId::Clock);
    let mut config = lifecycle_config(WindowId::Clock);
    config.size = [0, 60];
    assert_eq!(manager.create_window(config, &state), Err(WindowError::InvalidSize));
    let mut config = lifecycle_config(WindowId::Clock);
    config.size = [220, 0x8000_0000];
    assert_eq!(manager.create_window(config, &state), Err(WindowError::InvalidSize));
    assert!(!manager.is_live(WindowId::Clock));
}

#[test]
fn only_the_first_context_owns_the_display() {
    for order in [
        [WindowId::Clock, WindowId::Timer, WindowId::Plasma],
        [WindowId::Plasma, WindowId::Clock, WindowId::Timer],
        [WindowId::Timer, WindowId::Plasma, WindowId::Clock],
    ] {
        let mut state = WaylandState::new();
        let mut manager = WindowManager::new([1920, 1080]);
        for id in order {
            lifecycle_create(&mut manager, &mut state, id);
            let owners: Vec<WindowId> = lifecycle_live(&manager)
                .into_iter()
                .filter(|id| manager.contexts().get(*id).unwrap().owns_display())
                .collect();
            assert_eq!(owners, vec![order[0]]);
            assert_eq!(manager.owner(), Some(order[0]));
        }
    }
}

#[test]
fn destroy_window_leaves_the_primary_context_current() {
    let mut state = WaylandState::new();
    let mut manager = WindowManager::new([1920, 1080]);
    lifecycle_create(&mut manager, &mut state, WindowId::Clock);
    lifecycle_create(&mut manager, &mut state, WindowId::Timer);
    lifecycle_create(&mut manager, &mut state, WindowId::Plasma);
    assert_eq!(manager.current(), Some(WindowId::Plasma));
    let steps = manager.destroy_window(WindowId::Timer);
    assert_eq!(
        steps,
        vec![
            TeardownStep::MakeCurrent(WindowId::Clock),
            TeardownStep::DestroyDrawable(WindowId::Timer),
            TeardownStep::DestroyContext(WindowId::Timer),
            TeardownStep::DestroyLayerSurface(WindowId::Timer, 21),
            TeardownStep::DestroySurface(WindowId::Timer, 20),
        ]
    );
    assert_eq!(manager.current(), Some(WindowId::Clock));
    let steps = manager.destroy_window(WindowId::Plasma);
    assert_eq!(
        steps,
        vec![
            TeardownStep::DestroyDrawable(WindowId::Plasma),
            TeardownStep::DestroyContext(WindowId::Plasma),
            TeardownStep::DestroyLayerSurface(WindowId::Plasma, 31),
            TeardownStep::DestroySurface(WindowId::Plasma, 30),
        ]
    );
    assert_eq!(manager.current(), Some(WindowId::Clock));
    assert_eq!(lifecycle_live(&manager), vec![WindowId::Clock]);
}

#[test]
fn destroy_window_of_the_current_context_releases_it() {
    let mut state = WaylandState::new();
    let mut manager = WindowManager::new([1920, 1080]);
    lifecycle_create(&mut manager, &mut state, WindowId::Clock);
    let steps = manager.destroy_window(WindowId::Clock);
    assert_eq!(
        steps,
        vec![
            TeardownStep::ReleaseCurrent,
            TeardownStep::DestroyDrawable(WindowId::Clock),
            TeardownStep::DestroyContext(WindowId::Clock),
            TeardownStep::TerminateDisplay,
            TeardownStep::DestroyLayerSurface(WindowId::Clock, 11),
            TeardownStep::DestroySurface(WindowId::Clock, 10),
        ]
    );
    assert_eq!(manager.current(), None);
    assert_eq!(manager.owner(), None);
}

#[test]
fn destroy_window_without_a_primary_keeps_another_current_context() {
    let mut state = WaylandState::new();
    let mut manager = WindowManager::new([1920, 1080]);
    lifecycle_create(&mut manager, &mut state, WindowId::Timer);
    lifecycle_create(&mut manager, &mut state, WindowId::Plasma);
    assert!(manager.make_current(WindowId::Timer));
    let steps = manager.destroy_window(WindowId::Plasma);
    assert_eq!(
        steps,
        vec![
            TeardownStep::DestroyDrawable(WindowId::Plasma),
            TeardownStep::DestroyContext(WindowId::Plasma),
            TeardownStep::DestroyLayerSurface(WindowId::Plasma, 31),
            TeardownStep::DestroySurface(WindowId::Plasma, 30),
        ]
    );
    assert_eq!(manager.current(), Some(WindowId::Timer));
}

#[test]
fn destroy_window_that_is_not_live_does_nothing() {
    let mut state = WaylandState::new();
    let mut manager = WindowManager::new([1920, 1080]);
    lifecycle_create(&mut manager, &mut state, WindowId::Clock);
    assert_eq!(manager.destroy_window(WindowId::Timer), vec![]);
    assert_eq!(manager.current(), Some(WindowId::Clock));
    assert_eq!(lifecycle_live(&manager), vec![WindowId::Clock]);
}

#[test]
fn make_current_needs_a_live_window() {
    let mut state = WaylandState::new();
    let mut manager = WindowManager::new([1920, 1080]);
    assert!(!manager.make_current(WindowId::Clock));
    assert_eq!(manager.current(), None);
    lifecycle_create(&mut manager, &mut state, WindowId::Clock);
    lifecycle_create(&mut manager, &mut state, WindowId::Timer);
    assert_eq!(manager.current(), Some(WindowId::Timer));
    assert!(manager.make_current(WindowId::Clock));
    assert_eq!(manager.current(), Some(WindowId::Clock));
    assert!(!manager.make_current(WindowId::Plasma));
    assert_eq!(manager.current(), Some(WindowId::Clock));
}

#[test]
fn destroy_all_takes_the_display_owner_last() {
    let mut state = WaylandState::new();
    let mut manager = WindowManager::new([1920, 1080]);
    lifecycle_create(&mut manager, &mut state, WindowId::Timer);
    lifecycle_create(&mut manager, &mut state, WindowId::Clock);
    lifecycle_create(&mut manager, &mut state, WindowId::Plasma);
    assert_eq!(manager.owner(), Some(WindowId::Timer));
    let steps = manager.destroy_all();
    assert_eq!(
        steps,
        vec![
            TeardownStep::DestroyDrawable(WindowId::Clock),
            TeardownStep::DestroyContext(WindowId::Clock),
            TeardownStep::DestroyLayerSurface(WindowId::Clock, 11),
            TeardownStep::DestroySurface(WindowId::Clock, 10),
            TeardownStep::ReleaseCurrent,
            TeardownStep::DestroyDrawable(WindowId::Plasma),
            TeardownStep::DestroyContext(WindowId::Plasma),
            TeardownStep::DestroyLayerSurface(WindowId::Plasma, 31),
            TeardownStep::DestroySurface(WindowId::Plasma, 30),
            TeardownStep::DestroyDrawable(WindowId::Timer),
            TeardownStep::DestroyContext(WindowId::Timer),
            TeardownStep::TerminateDisplay,
            TeardownStep::DestroyLayerSurface(WindowId::Timer, 21),
            TeardownStep::DestroySurface(WindowId::Timer, 20),
        ]
    );
    assert!(lifecycle_live(&manager).is_empty());
    assert_eq!(manager.current(), None);
    assert_eq!(manager.destroy_all(), vec![]);
}

#[test]
fn reconcile_creates_what_is_missing_and_destroys_what_is_left_over() {
    let mut state = WaylandState::new();
    let mut manager = WindowManager::new([1920, 1080]);
    lifecycle_create(&mut manager, &mut state, WindowId::Clock);
    lifecycle_create(&mut manager, &mut state, WindowId::Timer);
    let desired = lifecycle_desired(&[WindowId::Clock, WindowId::Plasma]);
    assert_eq!(
        manager.reconcile(&desired),
        vec![WindowOp::Destroy(WindowId::Timer), WindowOp::Create(WindowId::Plasma)]
    );
    assert_eq!(lifecycle_live(&manager), vec![WindowId::Clock, WindowId::Timer]);
}

#[test]
fn reconcile_destroys_the_display_owner_last() {
    let mut state = WaylandState::new();
    let mut manager = WindowManager::new([1920, 1080]);
    lifecycle_create(&mut manager, &mut state, WindowId::Clock);
    lifecycle_create(&mut manager, &mut state, WindowId::Timer);
    lifecycle_create(&mut manager, &mut state, WindowId::Plasma);
    assert_eq!(
        manager.reconcile(&lifecycle_desired(&[])),
        vec![
            WindowOp::Destroy(WindowId::Timer),
            WindowOp::Destroy(WindowId::Plasma),
            WindowOp::Destroy(WindowId::Clock),
        ]
    );
}

#[test]
fn reconcile_on_an_empty_registry_creates_in_role_order() {
    let manager = WindowManager::new([1920, 1080]);
    let desired = lifecycle_desired(&[WindowId::Plasma, WindowId::Timer, WindowId::Clock]);
    assert_eq!(
        manager.reconcile(&desired),
        vec![
            WindowOp::Create(WindowId::Clock),
            WindowOp::Create(WindowId::Timer),
            WindowOp::Create(WindowId::Plasma),
        ]
    );
}

#[test]
fn reconcile_is_idempotent() {
    let all = [WindowId::Clock, WindowId::Timer, WindowId::Plasma];
    for before in 0..8u32 {
        for after in 0..8u32 {
            let mut state = WaylandState::new();
            let mut manager = WindowManager::new([1920, 1080]);
            for (i, id) in all.iter().enumerate() {
                if before & (1 << i) != 0 {
                    lifecycle_create(&mut manager, &mut state, *id);
                }
            }
            let wanted: Vec<WindowId> =
                all.iter().copied().enumerate().filter(|(i, _)| after & (1 << i) != 0).map(|(_, id)| id).collect();
            let desired = lifecycle_desired(&wanted);
            lifecycle_perform(&mut manager, &mut state, &desired);
            assert_eq!(lifecycle_live(&manager), wanted);
            assert_eq!(manager.reconcile(&desired), vec![]);
            assert_eq!(lifecycle_perform(&mut manager, &mut state, &desired), vec![]);
            assert_eq!(lifecycle_live(&manager), wanted);
        }
    }
}

#[test]
fn scenario_primary_only() {
    let mut state = WaylandState::new();
    let mut manager = WindowManager::new([1920, 1080]);
    let desired = lifecycle_desired(&[WindowId::Clock]);
    let ops = lifecycle_perform(&mut manager, &mut state, &desired);
    assert_eq!(ops, vec![WindowOp::Create(WindowId::Clock)]);
    assert_eq!(lifecycle_live(&manager), vec![WindowId::Clock]);
    assert_eq!(manager.get_window(WindowId::Clock).unwrap().config.id, WindowId::Clock);
    assert!(!manager.destroy_window(WindowId::Clock).is_empty());
    assert!(lifecycle_live(&manager).is_empty());
    assert!(manager.get_window(WindowId::Clock).is_none());
}

fn lifecycle_tick(app: &App, manager: &mut WindowManager, state: &mut WaylandState) -> Vec<WindowOp> {
    let (desired, ops) = plan_windows(app, manager);
    assert_eq!(lifecycle_perform(manager, state, &desired), ops);
    ops
}

#[test]
fn scenario_timer_and_effect_follow_the_mode() {
    let mut app = App::new(Config::default());
    app.set_screen_size([1920, 1080]);
    let mut state = WaylandState::new();
    let mut manager = WindowManager::new([1920, 1080]);

    assert_eq!(app.pomodoro.mode(), PomodoroMode::Idle);
    assert_eq!(
        lifecycle_tick(&app, &mut manager, &mut state),
        vec![WindowOp::Create(WindowId::Clock)]
    );
    assert_eq!(manager.get_window(WindowId::Clock).unwrap().actual_position, [1700, 0]);

    app.handle_event(UiEvent::PointerDown { pos: Vec2 { x: 0, y: 0 }, button: BTN_RIGHT });
    assert_eq!(app.pomodoro.mode(), PomodoroMode::Counting);
    assert_eq!(
        lifecycle_tick(&app, &mut manager, &mut state),
        vec![WindowOp::Create(WindowId::Timer)]
    );
    assert_eq!(lifecycle_live(&manager), vec![WindowId::Clock, WindowId::Timer]);
    let timer = manager.get_window(WindowId::Timer).unwrap();
    assert_eq!(timer.config.size, [80, 30]);
    assert_eq!(timer.actual_position, [1700 - 80 - 10, 0]);
    assert_eq!(timer.config.layer, Layer::Top);
    assert!(!manager.contexts().get(WindowId::Timer).unwrap().owns_display());

    app.pomodoro.apply(PomodoroTrigger::Expired);
    assert_eq!(app.pomodoro.mode(), PomodoroMode::Completion);
    assert_eq!(
        lifecycle_tick(&app, &mut manager, &mut state),
        vec![WindowOp::Destroy(WindowId::Timer), WindowOp::Create(WindowId::Plasma)]
    );
    assert_eq!(lifecycle_live(&manager), vec![WindowId::Clock, WindowId::Plasma]);
    let plasma = manager.get_window(WindowId::Plasma).unwrap();
    assert_eq!(plasma.config.size, [1920, 1080]);
    assert_eq!(plasma.actual_position, [0, 0]);
    assert_eq!(plasma.config.layer, Layer::Overlay);

    app.pomodoro.apply(PomodoroTrigger::EffectDone);
    assert_eq!(app.pomodoro.mode(), PomodoroMode::Idle);
    assert_eq!(
        lifecycle_tick(&app, &mut manager, &mut state),
        vec![WindowOp::Destroy(WindowId::Plasma)]
    );
    assert_eq!(lifecycle_live(&manager), vec![WindowId::Clock]);
    assert_eq!(manager.current(), Some(WindowId::Clock));
    assert_eq!(lifecycle_tick(&app, &mut manager, &mut state), vec![]);
}

#[test]
fn resize_window_changes_size_and_drawable() {
    let mut state = WaylandState::new();
    let mut manager = WindowManager::new([1920, 1080]);
    lifecycle_create(&mut manager, &mut state, WindowId::Clock);
    lifecycle_create(&mut manager, &mut state, WindowId::Timer);
    assert_eq!(manager.resize_window(WindowId::Clock, [150, 60]), Ok(()));
    let clock = manager.get_window(WindowId::Clock).unwrap();
    assert_eq!(clock.config.size, [150, 60]);
    assert_eq!(
        manager.contexts().get(WindowId::Clock).unwrap().surface_size(),
        Some([150, 60])
    );
    assert_eq!(clock.actual_position, [1700, 0]);
    assert_eq!(manager.relayout(), vec![WindowId::Clock, WindowId::Timer]);
    assert_eq!(manager.get_window(WindowId::Clock).unwrap().actual_position, [1770, 0]);
    assert_eq!(manager.get_window(WindowId::Timer).unwrap().actual_position, [1680, 0]);
    assert_eq!(manager.placement_margin(WindowId::Timer), Some([0, 0, 0, 1680]));
    assert_eq!(manager.placement_margin(WindowId::Clock), Some([0, 0, 0, 0]));
    assert_eq!(manager.placement_margin(WindowId::Plasma), None);
}

#[test]
fn resize_window_errors() {
    let mut state = WaylandState::new();
    let mut manager = WindowManager::new([1920, 1080]);
    assert_eq!(manager.resize_window(WindowId::Clock, [150, 60]), Err(WindowError::NotLive));
    lifecycle_create(&mut manager, &mut state, WindowId::Clock);
    assert_eq!(manager.resize_window(WindowId::Clock, [0, 60]), Err(WindowError::InvalidSize));
    assert_eq!(manager.get_window(WindowId::Clock).unwrap().config.size, [220, 60]);
}

#[test]
fn get_window_mut_writes_through() {
    let mut state = WaylandState::new();
    let mut manager = WindowManager::new([1920, 1080]);
    assert!(manager.get_window_mut(WindowId::Clock).is_none());
    lifecycle_create(&mut manager, &mut state, WindowId::Clock);
    manager.get_window_mut(WindowId::Clock).unwrap().actual_position = [5, 6];
    assert_eq!(manager.get_window(WindowId::Clock).unwrap().actual_position, [5, 6]);
}

#[test]
fn role_map_holds_one_value_per_role() {
    let mut map: RoleMap<u32> = RoleMap::new();
    assert!(!map.contains(WindowId::Timer));
    assert_eq!(map.insert(WindowId::Timer, 1), None);
    assert_eq!(map.insert(WindowId::Timer, 2), Some(1));
    assert_eq!(map.get(WindowId::Timer), Some(&2));
    assert_eq!(map.get(WindowId::Clock), None);
    *map.get_mut(WindowId::Timer).unwrap() = 3;
    assert_eq!(map.remove(WindowId::Timer), Some(3));
    assert_eq!(map.remove(WindowId::Timer), None);
    assert!(!map.contains(WindowId::Timer));
}
