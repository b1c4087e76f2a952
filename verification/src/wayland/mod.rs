//! The compositor session: which globals are bound, which surfaces have
//! completed their configure handshake, and how pointer events become
//! input events.

pub mod egl;
pub mod placement;
pub mod reconcile;
pub mod role_map;
pub mod window_manager;

use vstd::prelude::*;

use crate::app::{UiEvent, Vec2, BTN_LEFT, BTN_RIGHT};
use window_manager::WindowId;

verus! {

/// The window under the pointer.
#[derive(Debug, Clone, Copy, PartialEq, Eq, Structural)]
pub enum ActiveSurface {
    Clock,
    Timer,
    Plasma,
}

impl ActiveSurface {
    /// The surface of the window with this role.
    pub open spec fn of(id: WindowId) -> ActiveSurface {
        match id {
            WindowId::Clock => ActiveSurface::Clock,
            WindowId::Timer => ActiveSurface::Timer,
            WindowId::Plasma => ActiveSurface::Plasma,
        }
    }

    /// The role of the window that this surface belongs to.
    pub open spec fn spec_window(self) -> WindowId {
        match self {
            ActiveSurface::Clock => WindowId::Clock,
            ActiveSurface::Timer => WindowId::Timer,
            ActiveSurface::Plasma => WindowId::Plasma,
        }
    }

    /// The role of the window that this surface belongs to.
    #[verifier::when_used_as_spec(spec_window)]
    pub fn window(self) -> (id: WindowId)
        ensures
            id == self.spec_window(),
            ActiveSurface::of(id) == self,
    {
        match self {
            ActiveSurface::Clock => WindowId::Clock,
            ActiveSurface::Timer => WindowId::Timer,
            ActiveSurface::Plasma => WindowId::Plasma,
        }
    }
}

/// The state of a pointer button, as the compositor reports it.
#[derive(Debug, Clone, Copy, PartialEq, Eq, Structural)]
pub enum ButtonState {
    Released,
    Pressed,
    /// A value that the protocol does not define.
    Unknown,
}

/// The axis of a scroll event.
#[derive(Debug, Clone, Copy, PartialEq, Eq, Structural)]
pub enum Axis {
    VerticalScroll,
    HorizontalScroll,
    /// A value that the protocol does not define.
    Unknown,
}

/// What the compositor reports about the pointer. Positions and scroll
/// values are in 1/256 of a unit, the fixed-point format of the protocol.
#[derive(Debug, Clone, Copy, PartialEq, Eq, Structural)]
pub enum PointerEvent {
    /// The pointer entered the surface with this object id.
    Enter { surface: u32, surface_x: i32, surface_y: i32 },
    Leave,
    Motion { surface_x: i32, surface_y: i32 },
    Button { button: u32, state: ButtonState },
    Axis { axis: Axis, value: i32 },
    /// Any other pointer event.
    Other,
}

/// The normalised scroll step for a raw axis value: a negative value is a
/// scroll up and gives 1, a positive one gives -1, and zero gives nothing.
pub open spec fn scroll_delta_of(value: i32) -> Option<i32> {
    if value < 0 {
        Some(1i32)
    } else if value > 0 {
        Some(-1i32)
    } else {
        None
    }
}

/// Normalises a raw scroll value to one step up (1) or down (-1).
pub fn scroll_delta(value: i32) -> (delta: Option<i32>)
    ensures
        delta == scroll_delta_of(value),
{
    if value < 0 {
        Some(1)
    } else if value > 0 {
        Some(-1)
    } else {
        None
    }
}

/// A global object of the compositor that the session binds.
#[derive(Debug, Clone, Copy, PartialEq, Eq, Structural)]
pub enum Global {
    /// The surface factory.
    Compositor,
    /// The factory of overlay layer surfaces.
    LayerShell,
    /// The input seat.
    Seat,
    /// The output, which reports the screen size.
    Output,
}

/// The global that an advertised interface name stands for, if the session
/// binds it.
pub open spec fn global_of(interface: Seq<char>) -> Option<Global> {
    if interface == "wl_compositor"@ {
        Some(Global::Compositor)
    } else if interface == "zwlr_layer_shell_v1"@ {
        Some(Global::LayerShell)
    } else if interface == "wl_seat"@ {
        Some(Global::Seat)
    } else if interface == "wl_output"@ {
        Some(Global::Output)
    } else {
        None
    }
}

/// The highest version of a global that the session speaks.
pub open spec fn max_version(global: Global) -> u32 {
    match global {
        Global::Compositor => 4,
        Global::LayerShell => 1,
        Global::Seat => 5,
        Global::Output => 2,
    }
}

/// The global to bind for an advertised interface, and the version to bind
/// it with: the advertised one, capped at what the session speaks.
pub open spec fn bind_request(interface: Seq<char>, version: u32) -> Option<(Global, u32)> {
    match global_of(interface) {
        Some(global) => Some(
            (
                global,
                if version <= max_version(global) {
                    version
                } else {
                    max_version(global)
                },
            ),
        ),
        None => None,
    }
}

fn same_text(a: &str, b: &str) -> (same: bool)
    ensures
        same == (a@ == b@),
{
    let x: String = a.to_owned();
    let y: String = b.to_owned();
    x == y
}

/// Finds the global that an advertised interface name stands for.
pub fn classify_global(interface: &str) -> (global: Option<Global>)
    ensures
        global == global_of(interface@),
{
    if same_text(interface, "wl_compositor") {
        Some(Global::Compositor)
    } else if same_text(interface, "zwlr_layer_shell_v1") {
        Some(Global::LayerShell)
    } else if same_text(interface, "wl_seat") {
        Some(Global::Seat)
    } else if same_text(interface, "wl_output") {
        Some(Global::Output)
    } else {
        None
    }
}

/// What the compositor reports about a layer surface.
#[derive(Debug, Clone, Copy, PartialEq, Eq, Structural)]
pub enum LayerSurfaceEvent {
    /// The compositor proposes a size; the client acknowledges by serial.
    Configure { serial: u32, width: u32, height: u32 },
    /// The compositor closed the surface.
    Closed,
    /// Any other event.
    Other,
}

/// What happened to the window of a role.
#[derive(Debug, Clone, Copy, PartialEq, Eq, Structural)]
pub enum LifecycleSignal {
    /// The configure handshake of the window completed.
    Configured { role: WindowId },
    /// The compositor closed the window.
    Closed { role: WindowId },
}

/// The answer to a layer surface event: the serial to acknowledge, if any,
/// and what the event means for the window that owns the surface, if one does.
#[derive(Debug, Clone, Copy, PartialEq, Eq, Structural)]
pub struct LayerSurfaceReply {
    pub ack: Option<u32>,
    pub signal: Option<LifecycleSignal>,
}

/// Which input devices to ask the seat for.
#[derive(Debug, Clone, Copy, PartialEq, Eq, Structural)]
pub struct SeatRequest {
    pub get_pointer: bool,
    pub get_keyboard: bool,
}

/// Why the session cannot show any overlay.
#[derive(Debug, Clone, Copy, PartialEq, Eq, Structural)]
pub enum SessionError {
    /// The compositor offers no surface factory.
    MissingCompositor,
    /// The compositor offers no layer shell.
    MissingLayerShell,
}

/// What a session can do with the globals it has.
#[derive(Debug, Clone, Copy, PartialEq, Eq, Structural)]
pub struct Capabilities {
    /// A seat is bound: input events will arrive.
    pub input: bool,
    /// An output is bound: the screen size will be known.
    pub screen: bool,
}

/// The screen size assumed while no output has reported one.
pub const DEFAULT_SCREEN_WIDTH: u32 = 1920;

/// The screen size assumed while no output has reported one.
pub const DEFAULT_SCREEN_HEIGHT: u32 = 1080;

/// The state of the session with the compositor.
///
/// Objects of the compositor appear by their protocol ids. The fields
/// `surface` and `layer_surface` belong to the clock window.
pub struct WaylandState {
    pub running: bool,
    /// The clock window has completed its configure handshake.
    pub configured: bool,
    pub timer_configured: bool,
    pub plasma_configured: bool,
    /// The bound version of each global, once bound.
    pub compositor: Option<u32>,
    pub layer_shell: Option<u32>,
    pub seat: Option<u32>,
    pub output: Option<u32>,
    pub surface: Option<u32>,
    pub layer_surface: Option<u32>,
    pub timer_surface: Option<u32>,
    pub timer_layer_surface: Option<u32>,
    pub plasma_surface: Option<u32>,
    pub plasma_layer_surface: Option<u32>,
    pub output_size: Option<[u32; 2]>,
    pub pointer: bool,
    pub keyboard: bool,
    pub surface_pos: Vec2,
    pub pending_events: Vec<UiEvent>,
    pub active_surface: Option<ActiveSurface>,
}

impl WaylandState {
    /// The compositor surface of the window of a role, if it has one.
    pub open spec fn surface_of(&self, id: WindowId) -> Option<u32> {
        match id {
            WindowId::Clock => self.surface,
            WindowId::Timer => self.timer_surface,
            WindowId::Plasma => self.plasma_surface,
        }
    }

    /// The layer surface of the window of a role, if it has one.
    pub open spec fn layer_surface_of(&self, id: WindowId) -> Option<u32> {
        match id {
            WindowId::Clock => self.layer_surface,
            WindowId::Timer => self.timer_layer_surface,
            WindowId::Plasma => self.plasma_layer_surface,
        }
    }

    /// Whether the window of a role has completed its configure handshake.
    pub open spec fn spec_is_configured(&self, id: WindowId) -> bool {
        match id {
            WindowId::Clock => self.configured,
            WindowId::Timer => self.timer_configured,
            WindowId::Plasma => self.plasma_configured,
        }
    }

    /// Whether a window has both of its surfaces and has completed its
    /// configure handshake: only then may a rendering context be made for it.
    pub open spec fn spec_is_ready(&self, id: WindowId) -> bool {
        &&& self.surface_of(id).is_some()
        &&& self.layer_surface_of(id).is_some()
        &&& self.spec_is_configured(id)
    }

    /// The window that a compositor surface belongs to. Where several
    /// windows hold the same id, the last of clock, timer, effect wins.
    pub open spec fn window_of_surface(&self, surface: u32) -> Option<WindowId> {
        if self.plasma_surface == Some(surface) {
            Some(WindowId::Plasma)
        } else if self.timer_surface == Some(surface) {
            Some(WindowId::Timer)
        } else if self.surface == Some(surface) {
            Some(WindowId::Clock)
        } else {
            None
        }
    }

    /// The window that a layer surface belongs to, the first of clock,
    /// timer, effect that holds the id.
    pub open spec fn window_of_layer_surface(&self, layer_surface: u32) -> Option<WindowId> {
        if self.layer_surface == Some(layer_surface) {
            Some(WindowId::Clock)
        } else if self.timer_layer_surface == Some(layer_surface) {
            Some(WindowId::Timer)
        } else if self.plasma_layer_surface == Some(layer_surface) {
            Some(WindowId::Plasma)
        } else {
            None
        }
    }

    /// A session that runs, with nothing bound, no surface and no event.
    pub fn new() -> (state: Self)
        ensures
            state.running,
            forall|id: WindowId|
                state.surface_of(id).is_none() && state.layer_surface_of(id).is_none()
                    && !state.spec_is_configured(id),
            state.compositor.is_none(),
            state.layer_shell.is_none(),
            state.seat.is_none(),
            state.output.is_none(),
            state.output_size.is_none(),
            !state.pointer,
            !state.keyboard,
            state.surface_pos == (Vec2 { x: 0, y: 0 }),
            state.pending_events@ == Seq::<UiEvent>::empty(),
            state.active_surface.is_none(),
    {
        WaylandState {
            running: true,
            configured: false,
            timer_configured: false,
            plasma_configured: false,
            compositor: None,
            layer_shell: None,
            seat: None,
            output: None,
            surface: None,
            layer_surface: None,
            timer_surface: None,
            timer_layer_surface: None,
            plasma_surface: None,
            plasma_layer_surface: None,
            output_size: None,
            pointer: false,
            keyboard: false,
            surface_pos: Vec2 { x: 0, y: 0 },
            pending_events: Vec::new(),
            active_surface: None,
        }
    }

    /// Whether two sessions agree on everything but the bound globals.
    pub open spec fn same_but_globals(&self, other: &Self) -> bool {
        &&& self.same_surfaces(other)
        &&& self.same_pointer(other)
        &&& self.running == other.running
        &&& self.output_size == other.output_size
        &&& self.pointer == other.pointer
        &&& self.keyboard == other.keyboard
    }

    /// Whether two sessions agree on the bound globals.
    pub open spec fn same_globals(&self, other: &Self) -> bool {
        &&& self.compositor == other.compositor
        &&& self.layer_shell == other.layer_shell
        &&& self.seat == other.seat
        &&& self.output == other.output
    }

    /// Whether two sessions agree on the surfaces of every window and on
    /// their handshakes.
    pub open spec fn same_surfaces(&self, other: &Self) -> bool {
        forall|id: WindowId|
            self.surface_of(id) == other.surface_of(id) && self.layer_surface_of(id)
                == other.layer_surface_of(id) && self.spec_is_configured(id)
                == other.spec_is_configured(id)
    }

    /// Whether two sessions agree on the pointer position, the window under
    /// the pointer and the queued events.
    pub open spec fn same_pointer(&self, other: &Self) -> bool {
        &&& self.surface_pos == other.surface_pos
        &&& self.active_surface == other.active_surface
        &&& self.pending_events@ == other.pending_events@
    }

    /// The version that a global is bound with, once it is bound.
    pub open spec fn bound(&self, global: Global) -> Option<u32> {
        match global {
            Global::Compositor => self.compositor,
            Global::LayerShell => self.layer_shell,
            Global::Seat => self.seat,
            Global::Output => self.output,
        }
    }

    /// Takes note of a global that the compositor advertises. Returns the
    /// global to bind and the version to bind it with, if the session wants
    /// it; the session then counts it as bound.
    pub fn on_global(&mut self, interface: &str, version: u32) -> (bind: Option<(Global, u32)>)
        ensures
            bind == bind_request(interface@, version),
            final(self).same_but_globals(old(self)),
            forall|g: Global|
                final(self).bound(g) == (match bind {
                    Some((global, v)) if global == g => Some(v),
                    _ => old(self).bound(g),
                }),
    {
        match classify_global(interface) {
            Some(Global::Compositor) => {
                let v: u32 = if version <= 4 { version } else { 4 };
                self.compositor = Some(v);
                Some((Global::Compositor, v))
            },
            Some(Global::LayerShell) => {
                let v: u32 = if version <= 1 { version } else { 1 };
                self.layer_shell = Some(v);
                Some((Global::LayerShell, v))
            },
            Some(Global::Seat) => {
                let v: u32 = if version <= 5 { version } else { 5 };
                self.seat = Some(v);
                Some((Global::Seat, v))
            },
            Some(Global::Output) => {
                let v: u32 = if version <= 2 { version } else { 2 };
                self.output = Some(v);
                Some((Global::Output, v))
            },
            None => None,
        }
    }

    /// What the session can do after the globals have been announced.
    /// Without a surface factory or a layer shell no overlay is possible;
    /// without a seat or an output the session runs with less.
    pub fn capabilities(&self) -> (res: Result<Capabilities, SessionError>)
        ensures
            self.compositor.is_none() ==> res == Err::<Capabilities, SessionError>(
                SessionError::MissingCompositor,
            ),
            self.compositor.is_some() && self.layer_shell.is_none() ==> res == Err::<
                Capabilities,
                SessionError,
            >(SessionError::MissingLayerShell),
            self.compositor.is_some() && self.layer_shell.is_some() ==> res == Ok::<
                Capabilities,
                SessionError,
            >(Capabilities { input: self.seat.is_some(), screen: self.output.is_some() }),
    {
        if self.compositor.is_none() {
            Err(SessionError::MissingCompositor)
        } else if self.layer_shell.is_none() {
            Err(SessionError::MissingLayerShell)
        } else {
            Ok(Capabilities { input: self.seat.is_some(), screen: self.output.is_some() })
        }
    }

    /// The screen size to place windows on: the one the output reported,
    /// or the default while none has.
    pub fn screen_size(&self) -> (size: [u32; 2])
        ensures
            size == (match self.output_size {
                Some(s) => s,
                None => [DEFAULT_SCREEN_WIDTH, DEFAULT_SCREEN_HEIGHT],
            }),
    {
        match self.output_size {
            Some(s) => s,
            None => [DEFAULT_SCREEN_WIDTH, DEFAULT_SCREEN_HEIGHT],
        }
    }

    /// Whether two sessions agree on everything but the pointer position,
    /// the window under the pointer and the queued events.
    pub open spec fn same_but_pointer(&self, other: &Self) -> bool {
        &&& self.same_surfaces(other)
        &&& self.same_globals(other)
        &&& self.running == other.running
        &&& self.output_size == other.output_size
        &&& self.pointer == other.pointer
        &&& self.keyboard == other.keyboard
    }

    /// The pointer position after a pointer event.
    pub open spec fn pos_after(&self, event: PointerEvent) -> Vec2 {
        match event {
            PointerEvent::Enter { surface_x, surface_y, .. } => Vec2 { x: surface_x, y: surface_y },
            PointerEvent::Leave => Vec2 { x: 0, y: 0 },
            PointerEvent::Motion { surface_x, surface_y } => Vec2 { x: surface_x, y: surface_y },
            _ => self.surface_pos,
        }
    }

    /// The window under the pointer after a pointer event. Entering a
    /// surface that belongs to no window leaves it as it was.
    pub open spec fn active_after(&self, event: PointerEvent) -> Option<ActiveSurface> {
        match event {
            PointerEvent::Enter { surface, .. } => match self.window_of_surface(surface) {
                Some(id) => Some(ActiveSurface::of(id)),
                None => self.active_surface,
            },
            PointerEvent::Leave => None,
            _ => self.active_surface,
        }
    }

    /// The input events that a pointer event gives rise to: at most one.
    ///
    /// Only the primary and the secondary button count, and only a press
    /// or a release. Only vertical scrolling counts, and only a value other
    /// than zero; the scroll event names the window under the pointer.
    pub open spec fn events_of(&self, event: PointerEvent) -> Seq<UiEvent> {
        match event {
            PointerEvent::Enter { surface_x, surface_y, .. } => seq![
                UiEvent::PointerEnter { pos: Vec2 { x: surface_x, y: surface_y } },
            ],
            PointerEvent::Leave => seq![UiEvent::PointerLeave],
            PointerEvent::Motion { surface_x, surface_y } => seq![
                UiEvent::PointerMove { pos: Vec2 { x: surface_x, y: surface_y } },
            ],
            PointerEvent::Button { button, state } => if button == BTN_LEFT || button
                == BTN_RIGHT {
                match state {
                    ButtonState::Pressed => seq![
                        UiEvent::PointerDown { pos: self.surface_pos, button },
                    ],
                    ButtonState::Released => seq![UiEvent::PointerUp],
                    ButtonState::Unknown => Seq::<UiEvent>::empty(),
                }
            } else {
                Seq::<UiEvent>::empty()
            },
            PointerEvent::Axis { axis, value } => match (axis, scroll_delta_of(value)) {
                (Axis::VerticalScroll, Some(delta)) => seq![
                    UiEvent::Scroll { delta, surface: self.active_surface },
                ],
                _ => Seq::<UiEvent>::empty(),
            },
            PointerEvent::Other => Seq::<UiEvent>::empty(),
        }
    }

    /// Takes note of a pointer event: the input events it gives rise to join
    /// the queue, in order, and the pointer position and the window under
    /// the pointer follow.
    pub fn on_pointer(&mut self, event: PointerEvent)
        ensures
            final(self).pending_events@ == old(self).pending_events@ + old(self).events_of(event),
            final(self).surface_pos == old(self).pos_after(event),
            final(self).active_surface == old(self).active_after(event),
            final(self).same_but_pointer(old(self)),
    {
        match event {
            PointerEvent::Enter { surface, surface_x, surface_y } => {
                self.surface_pos = Vec2 { x: surface_x, y: surface_y };
                if let Some(main_surface) = self.surface {
                    if surface == main_surface {
                        self.active_surface = Some(ActiveSurface::Clock);
                    }
                }
                if let Some(timer_surf) = self.timer_surface {
                    if surface == timer_surf {
                        self.active_surface = Some(ActiveSurface::Timer);
                    }
                }
                if let Some(plasma_surf) = self.plasma_surface {
                    if surface == plasma_surf {
                        self.active_surface = Some(ActiveSurface::Plasma);
                    }
                }
                self.pending_events.push(UiEvent::PointerEnter { pos: self.surface_pos });
            },
            PointerEvent::Leave => {
                self.pending_events.push(UiEvent::PointerLeave);
                self.surface_pos = Vec2 { x: 0, y: 0 };
                self.active_surface = None;
            },
            PointerEvent::Motion { surface_x, surface_y } => {
                self.surface_pos = Vec2 { x: surface_x, y: surface_y };
                self.pending_events.push(UiEvent::PointerMove { pos: self.surface_pos });
            },
            PointerEvent::Button { button, state } => {
                if button == BTN_LEFT || button == BTN_RIGHT {
                    match state {
                        ButtonState::Pressed => {
                            self.pending_events.push(
                                UiEvent::PointerDown { pos: self.surface_pos, button },
                            );
                        },
                        ButtonState::Released => {
                            self.pending_events.push(UiEvent::PointerUp);
                        },
                        ButtonState::Unknown => {},
                    }
                }
            },
            PointerEvent::Axis { axis, value } => {
                if let Axis::VerticalScroll = axis {
                    if let Some(delta) = scroll_delta(value) {
                        self.pending_events.push(
                            UiEvent::Scroll { delta, surface: self.active_surface },
                        );
                    }
                }
            },
            PointerEvent::Other => {},
        }
    }

    /// Hands out the queued input events, oldest first, and empties the
    /// queue.
    pub fn take_events(&mut self) -> (events: Vec<UiEvent>)
        ensures
            events@ == old(self).pending_events@,
            final(self).pending_events@ == Seq::<UiEvent>::empty(),
            final(self).surface_pos == old(self).surface_pos,
            final(self).active_surface == old(self).active_surface,
            final(self).same_but_pointer(old(self)),
    {
        let mut events: Vec<UiEvent> = Vec::new();
        std::mem::swap(&mut events, &mut self.pending_events);
        events
    }

    /// Takes note of the devices that the seat has. Returns which of them
    /// to ask the seat for: each one that it has.
    pub fn on_seat_capabilities(&mut self, pointer: bool, keyboard: bool) -> (req: SeatRequest)
        ensures
            req == (SeatRequest { get_pointer: pointer, get_keyboard: keyboard }),
            final(self).pointer == (old(self).pointer || pointer),
            final(self).keyboard == (old(self).keyboard || keyboard),
            final(self).same_surfaces(old(self)),
            final(self).same_globals(old(self)),
            final(self).same_pointer(old(self)),
            final(self).running == old(self).running,
            final(self).output_size == old(self).output_size,
    {
        if pointer {
            self.pointer = true;
        }
        if keyboard {
            self.keyboard = true;
        }
        SeatRequest { get_pointer: pointer, get_keyboard: keyboard }
    }

    /// Takes note of the screen size that the output reports, as unsigned
    /// numbers.
    pub fn on_output_mode(&mut self, width: i32, height: i32)
        ensures
            final(self).output_size == Some([width as u32, height as u32]),
            final(self).same_surfaces(old(self)),
            final(self).same_globals(old(self)),
            final(self).same_pointer(old(self)),
            final(self).running == old(self).running,
            final(self).pointer == old(self).pointer,
            final(self).keyboard == old(self).keyboard,
    {
        self.output_size = Some([width as u32, height as u32]);
    }

    /// Whether two sessions agree on everything but the surfaces, the
    /// handshakes and whether the session runs.
    pub open spec fn same_but_surfaces(&self, other: &Self) -> bool {
        &&& self.same_globals(other)
        &&& self.same_pointer(other)
        &&& self.output_size == other.output_size
        &&& self.pointer == other.pointer
        &&& self.keyboard == other.keyboard
    }

    /// Records the surfaces that were made for the window of a role. Its
    /// configure handshake starts anew.
    pub fn attach_surface(&mut self, id: WindowId, surface: u32, layer_surface: u32)
        ensures
            final(self).surface_of(id) == Some(surface),
            final(self).layer_surface_of(id) == Some(layer_surface),
            !final(self).spec_is_configured(id),
            forall|other: WindowId|
                other != id ==> final(self).surface_of(other) == old(self).surface_of(other)
                    && final(self).layer_surface_of(other) == old(self).layer_surface_of(other)
                    && final(self).spec_is_configured(other) == old(self).spec_is_configured(
                    other,
                ),
            final(self).running == old(self).running,
            final(self).same_but_surfaces(old(self)),
    {
        match id {
            WindowId::Clock => {
                self.surface = Some(surface);
                self.layer_surface = Some(layer_surface);
                self.configured = false;
            },
            WindowId::Timer => {
                self.timer_surface = Some(surface);
                self.timer_layer_surface = Some(layer_surface);
                self.timer_configured = false;
            },
            WindowId::Plasma => {
                self.plasma_surface = Some(surface);
                self.plasma_layer_surface = Some(layer_surface);
                self.plasma_configured = false;
            },
        }
    }

    /// Forgets the surfaces of the window of a role.
    pub fn detach_surface(&mut self, id: WindowId)
        ensures
            final(self).surface_of(id).is_none(),
            final(self).layer_surface_of(id).is_none(),
            !final(self).spec_is_configured(id),
            forall|other: WindowId|
                other != id ==> final(self).surface_of(other) == old(self).surface_of(other)
                    && final(self).layer_surface_of(other) == old(self).layer_surface_of(other)
                    && final(self).spec_is_configured(other) == old(self).spec_is_configured(
                    other,
                ),
            final(self).running == old(self).running,
            final(self).same_but_surfaces(old(self)),
    {
        match id {
            WindowId::Clock => {
                self.surface = None;
                self.layer_surface = None;
                self.configured = false;
            },
            WindowId::Timer => {
                self.timer_surface = None;
                self.timer_layer_surface = None;
                self.timer_configured = false;
            },
            WindowId::Plasma => {
                self.plasma_surface = None;
                self.plasma_layer_surface = None;
                self.plasma_configured = false;
            },
        }
    }

    /// Finds the window that a layer surface belongs to.
    pub fn find_layer_surface(&self, layer_surface: u32) -> (id: Option<WindowId>)
        ensures
            id == self.window_of_layer_surface(layer_surface),
    {
        if let Some(s) = self.layer_surface {
            if s == layer_surface {
                return Some(WindowId::Clock);
            }
        }
        if let Some(s) = self.timer_layer_surface {
            if s == layer_surface {
                return Some(WindowId::Timer);
            }
        }
        if let Some(s) = self.plasma_layer_surface {
            if s == layer_surface {
                return Some(WindowId::Plasma);
            }
        }
        None
    }

    /// The answer that a layer surface event calls for.
    pub open spec fn reply_to(&self, layer_surface: u32, event: LayerSurfaceEvent)
        -> LayerSurfaceReply {
        match event {
            LayerSurfaceEvent::Configure { serial, .. } => LayerSurfaceReply {
                ack: Some(serial),
                signal: match self.window_of_layer_surface(layer_surface) {
                    Some(role) => Some(LifecycleSignal::Configured { role }),
                    None => None,
                },
            },
            LayerSurfaceEvent::Closed => LayerSurfaceReply {
                ack: None,
                signal: match self.window_of_layer_surface(layer_surface) {
                    Some(role) => Some(LifecycleSignal::Closed { role }),
                    None => None,
                },
            },
            LayerSurfaceEvent::Other => LayerSurfaceReply { ack: None, signal: None },
        }
    }

    /// Takes note of an event on a layer surface.
    ///
    /// A configure event is to be acknowledged by its serial, and completes
    /// the handshake of the window that owns the surface. A close ends the
    /// session. Nothing else changes.
    pub fn on_layer_surface(&mut self, layer_surface: u32, event: LayerSurfaceEvent) -> (reply:
        LayerSurfaceReply)
        ensures
            reply == old(self).reply_to(layer_surface, event),
            final(self).running == (old(self).running && event != LayerSurfaceEvent::Closed),
            forall|id: WindowId|
                final(self).spec_is_configured(id) == (old(self).spec_is_configured(id) || (event
                    is Configure && old(self).window_of_layer_surface(layer_surface) == Some(
                    id,
                ))),
            forall|id: WindowId|
                final(self).surface_of(id) == old(self).surface_of(id)
                    && final(self).layer_surface_of(id) == old(self).layer_surface_of(id),
            final(self).same_but_surfaces(old(self)),
    {
        let owner: Option<WindowId> = self.find_layer_surface(layer_surface);
        match event {
            LayerSurfaceEvent::Configure { serial, width: _, height: _ } => {
                match owner {
                    Some(WindowId::Clock) => {
                        self.configured = true;
                        LayerSurfaceReply {
                            ack: Some(serial),
                            signal: Some(LifecycleSignal::Configured { role: WindowId::Clock }),
                        }
                    },
                    Some(WindowId::Timer) => {
                        self.timer_configured = true;
                        LayerSurfaceReply {
                            ack: Some(serial),
                            signal: Some(LifecycleSignal::Configured { role: WindowId::Timer }),
                        }
                    },
                    Some(WindowId::Plasma) => {
                        self.plasma_configured = true;
                        LayerSurfaceReply {
                            ack: Some(serial),
                            signal: Some(LifecycleSignal::Configured { role: WindowId::Plasma }),
                        }
                    },
                    None => LayerSurfaceReply { ack: Some(serial), signal: None },
                }
            },
            LayerSurfaceEvent::Closed => {
                self.running = false;
                match owner {
                    Some(role) => LayerSurfaceReply {
                        ack: None,
                        signal: Some(LifecycleSignal::Closed { role }),
                    },
                    None => LayerSurfaceReply { ack: None, signal: None },
                }
            },
            LayerSurfaceEvent::Other => LayerSurfaceReply { ack: None, signal: None },
        }
    }

    /// The compositor surface of the window of a role, if it has one.
    pub fn get_surface(&self, id: WindowId) -> (surface: Option<u32>)
        ensures
            surface == self.surface_of(id),
    {
        match id {
            WindowId::Clock => self.surface,
            WindowId::Timer => self.timer_surface,
            WindowId::Plasma => self.plasma_surface,
        }
    }

    /// The layer surface of the window of a role, if it has one.
    pub fn get_layer_surface(&self, id: WindowId) -> (layer_surface: Option<u32>)
        ensures
            layer_surface == self.layer_surface_of(id),
    {
        match id {
            WindowId::Clock => self.layer_surface,
            WindowId::Timer => self.timer_layer_surface,
            WindowId::Plasma => self.plasma_layer_surface,
        }
    }

    /// Whether the window of a role has completed its configure handshake.
    #[verifier::when_used_as_spec(spec_is_configured)]
    pub fn is_configured(&self, id: WindowId) -> (done: bool)
        ensures
            done == self.spec_is_configured(id),
    {
        match id {
            WindowId::Clock => self.configured,
            WindowId::Timer => self.timer_configured,
            WindowId::Plasma => self.plasma_configured,
        }
    }

    /// Whether a window has both of its surfaces and has completed its
    /// configure handshake.
    #[verifier::when_used_as_spec(spec_is_ready)]
    pub fn is_ready(&self, id: WindowId) -> (ready: bool)
        ensures
            ready == self.spec_is_ready(id),
    {
        match id {
            WindowId::Clock => self.surface.is_some() && self.layer_surface.is_some()
                && self.configured,
            WindowId::Timer => self.timer_surface.is_some() && self.timer_layer_surface.is_some()
                && self.timer_configured,
            WindowId::Plasma => self.plasma_surface.is_some()
                && self.plasma_layer_surface.is_some() && self.plasma_configured,
        }
    }
}

} // verus!
