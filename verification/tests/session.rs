use corna::app::{UiEvent, Vec2, BTN_LEFT, BTN_RIGHT};
use corna::wayland::window_manager::WindowId;
use corna::wayland::{
    classify_global, scroll_delta, ActiveSurface, Axis, ButtonState, Capabilities, Global,
    LayerSurfaceEvent, LayerSurfaceReply, LifecycleSignal, PointerEvent, SeatRequest,
    SessionError, WaylandState,
};

fn session_fixed(value: f64) -> i32 {
    (value * 256.0) as i32
}

#[test]
fn scroll_delta_sign_mapping() {
    assert_eq!(scroll_delta(session_fixed(-1.0)), Some(1));
    assert_eq!(scroll_delta(session_fixed(1.0)), Some(-1));
    assert_eq!(scroll_delta(session_fixed(0.0)), None);
    assert_eq!(scroll_delta(i32::MIN), Some(1));
    assert_eq!(scroll_delta(i32::MAX), Some(-1));
    assert_eq!(scroll_delta(-1), Some(1));
    assert_eq!(scroll_delta(1), Some(-1));
}

#[test]
fn scroll_event_carries_the_window_under_the_pointer() {
    let mut state = WaylandState::new();
    state.attach_surface(WindowId::Timer, 20, 21);
    state.on_pointer(PointerEvent::Enter { surface: 20, surface_x: 256, surface_y: 512 });
    state.on_pointer(PointerEvent::Axis { axis: Axis::VerticalScroll, value: session_fixed(-1.0) });
    state.on_pointer(PointerEvent::Axis { axis: Axis::VerticalScroll, value: session_fixed(1.0) });
    state.on_pointer(PointerEvent::Axis { axis: Axis::VerticalScroll, value: session_fixed(0.0) });
    state.on_pointer(PointerEvent::Axis { axis: Axis::HorizontalScroll, value: -256 });
    state.on_pointer(PointerEvent::Axis { axis: Axis::Unknown, value: -256 });
    assert_eq!(
        state.take_events(),
        vec![
            UiEvent::PointerEnter { pos: Vec2 { x: 256, y: 512 } },
            UiEvent::Scroll { delta: 1, surface: Some(ActiveSurface::Timer) },
            UiEvent::Scroll { delta: -1, surface: Some(ActiveSurface::Timer) },
        ]
    );
}

#[test]
fn scroll_without_a_window_under_the_pointer() {
    let mut state = WaylandState::new();
    state.on_pointer(PointerEvent::Axis { axis: Axis::VerticalScroll, value: -2560 });
    assert_eq!(state.take_events(), vec![UiEvent::Scroll { delta: 1, surface: None }]);
}

#[test]
fn pointer_enter_finds_the_window() {
    let mut state = WaylandState::new();
    state.attach_surface(WindowId::Clock, 10, 11);
    state.attach_surface(WindowId::Timer, 20, 21);
    state.attach_surface(WindowId::Plasma, 30, 31);
    state.on_pointer(PointerEvent::Enter { surface: 10, surface_x: 1, surface_y: 2 });
    assert_eq!(state.active_surface, Some(ActiveSurface::Clock));
    assert_eq!(state.surface_pos, Vec2 { x: 1, y: 2 });
    state.on_pointer(PointerEvent::Enter { surface: 30, surface_x: 3, surface_y: 4 });
    assert_eq!(state.active_surface, Some(ActiveSurface::Plasma));
    state.on_pointer(PointerEvent::Enter { surface: 99, surface_x: 5, surface_y: 6 });
    assert_eq!(state.active_surface, Some(ActiveSurface::Plasma));
    assert_eq!(state.surface_pos, Vec2 { x: 5, y: 6 });
    state.on_pointer(PointerEvent::Enter { surface: 20, surface_x: 7, surface_y: 8 });
    assert_eq!(state.active_surface, Some(ActiveSurface::Timer));
    assert_eq!(state.pending_events.len(), 4);
}

#[test]
fn pointer_leave_clears_position_and_window() {
    let mut state = WaylandState::new();
    state.attach_surface(WindowId::Clock, 10, 11);
    state.on_pointer(PointerEvent::Enter { surface: 10, surface_x: 1, surface_y: 2 });
    state.on_pointer(PointerEvent::Leave);
    assert_eq!(state.active_surface, None);
    assert_eq!(state.surface_pos, Vec2 { x: 0, y: 0 });
    assert_eq!(
        state.take_events(),
        vec![UiEvent::PointerEnter { pos: Vec2 { x: 1, y: 2 } }, UiEvent::PointerLeave]
    );
    assert!(state.pending_events.is_empty());
    assert_eq!(state.take_events(), vec![]);
}

#[test]
fn pointer_motion_and_buttons() {
    let mut state = WaylandState::new();
    state.on_pointer(PointerEvent::Motion { surface_x: 100, surface_y: 200 });
    state.on_pointer(PointerEvent::Button { button: BTN_LEFT, state: ButtonState::Pressed });
    state.on_pointer(PointerEvent::Button { button: BTN_LEFT, state: ButtonState::Released });
    state.on_pointer(PointerEvent::Button { button: BTN_RIGHT, state: ButtonState::Pressed });
    state.on_pointer(PointerEvent::Button { button: BTN_RIGHT, state: ButtonState::Unknown });
    state.on_pointer(PointerEvent::Button { button: 0x112, state: ButtonState::Pressed });
    state.on_pointer(PointerEvent::Button { button: 0x112, state: ButtonState::Released });
    state.on_pointer(PointerEvent::Other);
    assert_eq!(
        state.take_events(),
        vec![
            UiEvent::PointerMove { pos: Vec2 { x: 100, y: 200 } },
            UiEvent::PointerDown { pos: Vec2 { x: 100, y: 200 }, button: 0x110 },
            UiEvent::PointerUp,
            UiEvent::PointerDown { pos: Vec2 { x: 100, y: 200 }, button: 0x111 },
        ]
    );
}

#[test]
fn button_codes_are_those_of_the_protocol() {
    assert_eq!(BTN_LEFT, 0x110);
    assert_eq!(BTN_RIGHT, 0x111);
}

#[test]
fn globals_are_classified_by_interface_name() {
    assert_eq!(classify_global("wl_compositor"), Some(Global::Compositor));
    assert_eq!(classify_global("zwlr_layer_shell_v1"), Some(Global::LayerShell));
    assert_eq!(classify_global("wl_seat"), Some(Global::Seat));
    assert_eq!(classify_global("wl_output"), Some(Global::Output));
    assert_eq!(classify_global("wl_shm"), None);
    assert_eq!(classify_global(""), None);
    assert_eq!(classify_global("wl_compositor "), None);
}

#[test]
fn globals_are_bound_at_a_capped_version() {
    let mut state = WaylandState::new();
    assert_eq!(state.on_global("wl_compositor", 6), Some((Global::Compositor, 4)));
    assert_eq!(state.on_global("zwlr_layer_shell_v1", 4), Some((Global::LayerShell, 1)));
    assert_eq!(state.on_global("wl_seat", 3), Some((Global::Seat, 3)));
    assert_eq!(state.on_global("wl_output", 2), Some((Global::Output, 2)));
    assert_eq!(state.on_global("xdg_wm_base", 1), None);
    assert_eq!(state.compositor, Some(4));
    assert_eq!(state.layer_shell, Some(1));
    assert_eq!(state.seat, Some(3));
    assert_eq!(state.output, Some(2));
}

#[test]
fn missing_required_global_is_fatal() {
    let mut state = WaylandState::new();
    assert_eq!(state.capabilities(), Err(SessionError::MissingCompositor));
    state.on_global("zwlr_layer_shell_v1", 1);
    assert_eq!(state.capabilities(), Err(SessionError::MissingCompositor));
    let mut state = WaylandState::new();
    state.on_global("wl_compositor", 4);
    assert_eq!(state.capabilities(), Err(SessionError::MissingLayerShell));
}

#[test]
fn missing_seat_or_output_degrades() {
    let mut state = WaylandState::new();
    state.on_global("wl_compositor", 4);
    state.on_global("zwlr_layer_shell_v1", 1);
    assert_eq!(state.capabilities(), Ok(Capabilities { input: false, screen: false }));
    assert_eq!(state.screen_size(), [1920, 1080]);
    state.on_global("wl_seat", 5);
    assert_eq!(state.capabilities(), Ok(Capabilities { input: true, screen: false }));
    state.on_global("wl_output", 2);
    assert_eq!(state.capabilities(), Ok(Capabilities { input: true, screen: true }));
    state.on_output_mode(2560, 1440);
    assert_eq!(state.output_size, Some([2560, 1440]));
    assert_eq!(state.screen_size(), [2560, 1440]);
}

#[test]
fn output_mode_is_taken_as_unsigned() {
    let mut state = WaylandState::new();
    state.on_output_mode(-1, 5);
    assert_eq!(state.output_size, Some([u32::MAX, 5]));
}

#[test]
fn seat_capabilities_ask_for_each_device() {
    let mut state = WaylandState::new();
    assert_eq!(
        state.on_seat_capabilities(true, false),
        SeatRequest { get_pointer: true, get_keyboard: false }
    );
    assert!(state.pointer && !state.keyboard);
    assert_eq!(
        state.on_seat_capabilities(false, true),
        SeatRequest { get_pointer: false, get_keyboard: true }
    );
    assert!(state.pointer && state.keyboard);
}

#[test]
fn configure_is_acknowledged_and_completes_the_handshake() {
    let mut state = WaylandState::new();
    state.attach_surface(WindowId::Clock, 10, 11);
    state.attach_surface(WindowId::Timer, 20, 21);
    assert!(!state.is_configured(WindowId::Timer));
    assert!(!state.is_ready(WindowId::Timer));
    let reply =
        state.on_layer_surface(21, LayerSurfaceEvent::Configure { serial: 42, width: 80, height: 30 });
    assert_eq!(
        reply,
        LayerSurfaceReply {
            ack: Some(42),
            signal: Some(LifecycleSignal::Configured { role: WindowId::Timer }),
        }
    );
    assert!(state.is_configured(WindowId::Timer));
    assert!(state.is_ready(WindowId::Timer));
    assert!(!state.is_configured(WindowId::Clock));
    assert!(state.running);
}

#[test]
fn configure_of_an_unknown_surface_is_only_acknowledged() {
    let mut state = WaylandState::new();
    state.attach_surface(WindowId::Clock, 10, 11);
    let reply =
        state.on_layer_surface(77, LayerSurfaceEvent::Configure { serial: 5, width: 1, height: 1 });
    assert_eq!(reply, LayerSurfaceReply { ack: Some(5), signal: None });
    assert!(!state.is_configured(WindowId::Clock));
}

#[test]
fn closed_ends_the_session() {
    let mut state = WaylandState::new();
    state.attach_surface(WindowId::Plasma, 30, 31);
    assert!(state.running);
    let reply = state.on_layer_surface(31, LayerSurfaceEvent::Closed);
    assert_eq!(
        reply,
        LayerSurfaceReply { ack: None, signal: Some(LifecycleSignal::Closed { role: WindowId::Plasma }) }
    );
    assert!(!state.running);
    let reply = state.on_layer_surface(31, LayerSurfaceEvent::Other);
    assert_eq!(reply, LayerSurfaceReply { ack: None, signal: None });
    assert!(!state.running);
}

#[test]
fn attach_and_detach_surface() {
    let mut state = WaylandState::new();
    state.attach_surface(WindowId::Clock, 10, 11);
    state.on_layer_surface(11, LayerSurfaceEvent::Configure { serial: 1, width: 0, height: 0 });
    assert_eq!(state.get_surface(WindowId::Clock), Some(10));
    assert_eq!(state.get_layer_surface(WindowId::Clock), Some(11));
    assert_eq!(state.find_layer_surface(11), Some(WindowId::Clock));
    assert_eq!(state.find_layer_surface(10), None);
    state.attach_surface(WindowId::Clock, 12, 13);
    assert!(!state.is_configured(WindowId::Clock));
    state.detach_surface(WindowId::Clock);
    assert_eq!(state.get_surface(WindowId::Clock), None);
    assert_eq!(state.get_layer_surface(WindowId::Clock), None);
    assert!(!state.is_ready(WindowId::Clock));
}

#[test]
fn active_surface_names_its_window() {
    assert_eq!(ActiveSurface::Clock.window(), WindowId::Clock);
    assert_eq!(ActiveSurface::Timer.window(), WindowId::Timer);
    assert_eq!(ActiveSurface::Plasma.window(), WindowId::Plasma);
}
