//! Window roles, window descriptors and the registry of live windows.

use vstd::prelude::*;

use super::egl::{
    current_after_destroy, destroy_context_steps, ContextTable, EglContext, EglError,
    TeardownStep,
};
use super::placement::{
    anchor_edges, anchored, fits_i32, moved, moved_role, relative, resolve, settle, settle_all,
    valid_size,
};
use super::reconcile::{
    lemma_contains_concat, lemma_contains_short, lemma_reconcile_settled, push_if,
    reconcile_plan, WindowOp,
};
use super::role_map::RoleMap;
use super::WaylandState;

verus! {

/// The role of an overlay window. At most one window is live per role.
#[derive(Debug, Clone, Copy, PartialEq, Eq, Hash, Structural)]
pub enum WindowId {
    /// The primary window: the clock face.
    Clock,
    /// The countdown timer next to the clock.
    Timer,
    /// The fullscreen completion effect.
    Plasma,
}

/// The screen corner (or the centre) a window is attached to.
#[derive(Debug, Clone, Copy, PartialEq, Eq, Structural)]
pub enum AnchorPoint {
    TopLeft,
    TopRight,
    BottomLeft,
    BottomRight,
    Center,
}

/// The side of a reference window on which a window is placed.
#[derive(Debug, Clone, Copy, PartialEq, Eq, Structural)]
pub enum RelativePosition {
    LeftOf { gap: i32 },
    RightOf { gap: i32 },
    Above { gap: i32 },
    Below { gap: i32 },
}

/// Where a window is meant to be, before anything is asked of the compositor.
#[derive(Debug, Clone, Copy)]
pub enum PositionConfig {
    /// Attached to a corner; `margin` is top, right, bottom, left.
    Anchored { anchor: AnchorPoint, margin: [i32; 4] },
    /// Next to the window of another role.
    RelativeTo { window: WindowId, position: RelativePosition },
    /// At a fixed top-left position.
    Absolute { x: i32, y: i32 },
}

/// The stacking layer of an overlay surface, lowest first.
#[derive(Debug, Clone, Copy, PartialEq, Eq, Structural)]
pub enum Layer {
    Background,
    Bottom,
    Top,
    Overlay,
}

/// What a window is meant to be: its role, pixel size, placement, stacking
/// layer and a name for debugging.
#[derive(Debug)]
pub struct WindowConfig {
    pub id: WindowId,
    pub size: [u32; 2],
    pub position: PositionConfig,
    pub layer: Layer,
    pub name: String,
}

impl Clone for WindowConfig {
    fn clone(&self) -> (copy: Self)
        ensures
            copy == *self,
    {
        WindowConfig {
            id: self.id,
            size: self.size,
            position: self.position,
            layer: self.layer,
            name: self.name.clone(),
        }
    }
}

/// The screen edges that a layer surface is attached to.
#[derive(Debug, Clone, Copy, PartialEq, Eq, Structural)]
pub struct LayerAnchor {
    pub top: bool,
    pub right: bool,
    pub bottom: bool,
    pub left: bool,
}

/// What is asked of the compositor for the layer surface of a window.
/// `margin` is top, right, bottom, left.
#[derive(Debug)]
pub struct LayerRequest {
    pub anchor: LayerAnchor,
    pub margin: [i32; 4],
    pub exclusive_zone: i32,
    pub size: [u32; 2],
    pub layer: Layer,
    pub name: String,
}

/// A live window: its surfaces by their protocol ids, its descriptor and
/// its resolved top-left position.
#[derive(Debug)]
pub struct ManagedWindow {
    pub surface: u32,
    pub layer_surface: u32,
    pub config: WindowConfig,
    pub actual_position: [i32; 2],
}

/// Why a window cannot be created.
#[derive(Debug, Clone, Copy, PartialEq, Eq, Structural)]
pub enum WindowError {
    /// A window of the role is live already.
    AlreadyLive,
    /// The surfaces of the window are missing, or their configure
    /// handshake has not completed.
    NotConfigured,
    /// The width or the height is zero, or too large for a drawable.
    InvalidSize,
    /// The resolved position cannot be expressed in 32 bits.
    OutOfRange,
    /// No window of the role is live.
    NotLive,
}

/// The native steps that destroy the surfaces of the live window of `id`:
/// the layer surface first, then the surface. Without a live window of
/// `id` there is no step.
pub open spec fn destroy_surface_steps(windows: Map<WindowId, ManagedWindow>, id: WindowId) -> Seq<
    TeardownStep,
> {
    if windows.contains_key(id) {
        seq![
            TeardownStep::DestroyLayerSurface(id, windows[id].layer_surface),
            TeardownStep::DestroySurface(id, windows[id].surface),
        ]
    } else {
        Seq::<TeardownStep>::empty()
    }
}

/// The native steps that destroy the window of `id`, in order: first its
/// context, where the context of the clock takes over as the current one
/// if it stays; then its layer surface; last its surface.
pub open spec fn destroy_steps(
    windows: Map<WindowId, ManagedWindow>,
    contexts: Map<WindowId, EglContext>,
    current: Option<WindowId>,
    id: WindowId,
) -> Seq<TeardownStep> {
    destroy_context_steps(contexts, current, id) + destroy_surface_steps(windows, id)
}

/// The native steps that destroy the windows of `order`, one after the
/// other, each against what the ones before it have left.
pub open spec fn destroy_all_steps(
    windows: Map<WindowId, ManagedWindow>,
    contexts: Map<WindowId, EglContext>,
    current: Option<WindowId>,
    order: Seq<WindowId>,
) -> Seq<TeardownStep>
    decreases order.len(),
{
    if order.len() == 0 {
        Seq::<TeardownStep>::empty()
    } else {
        destroy_steps(windows, contexts, current, order[0]) + destroy_all_steps(
            windows.remove(order[0]),
            contexts.remove(order[0]),
            current_after_destroy(contexts, current, order[0]),
            order.skip(1),
        )
    }
}

/// Whether the window of a role owns the shared display through its
/// context.
pub open spec fn owns_display(contexts: Map<WindowId, EglContext>, id: WindowId) -> bool {
    contexts.contains_key(id) && contexts[id].spec_owns_display()
}

/// The role, where a window or a context of it exists and does not own
/// the display.
pub open spec fn other_role(
    windows: Map<WindowId, ManagedWindow>,
    contexts: Map<WindowId, EglContext>,
    id: WindowId,
) -> Seq<WindowId> {
    if (windows.contains_key(id) || contexts.contains_key(id)) && !owns_display(contexts, id) {
        seq![id]
    } else {
        Seq::<WindowId>::empty()
    }
}

/// The role, where its window owns the display.
pub open spec fn owner_role(contexts: Map<WindowId, EglContext>, id: WindowId) -> Seq<WindowId> {
    if owns_display(contexts, id) {
        seq![id]
    } else {
        Seq::<WindowId>::empty()
    }
}

/// The order in which all windows are destroyed: clock, timer, effect,
/// but every window that owns the shared display after those that do not.
pub open spec fn shutdown_order(
    windows: Map<WindowId, ManagedWindow>,
    contexts: Map<WindowId, EglContext>,
) -> Seq<WindowId> {
    other_role(windows, contexts, WindowId::Clock) + other_role(windows, contexts, WindowId::Timer)
        + other_role(windows, contexts, WindowId::Plasma) + owner_role(contexts, WindowId::Clock)
        + owner_role(contexts, WindowId::Timer) + owner_role(contexts, WindowId::Plasma)
}

proof fn lemma_shutdown_order_complete(
    windows: Map<WindowId, ManagedWindow>,
    contexts: Map<WindowId, EglContext>,
    id: WindowId,
)
    requires
        windows.contains_key(id) || contexts.contains_key(id),
    ensures
        shutdown_order(windows, contexts).contains(id),
{
    let a = other_role(windows, contexts, WindowId::Clock);
    let b = other_role(windows, contexts, WindowId::Timer);
    let c = other_role(windows, contexts, WindowId::Plasma);
    let d = owner_role(contexts, WindowId::Clock);
    let e = owner_role(contexts, WindowId::Timer);
    let f = owner_role(contexts, WindowId::Plasma);
    lemma_contains_concat(a, b, id);
    lemma_contains_concat(a + b, c, id);
    lemma_contains_concat(a + b + c, d, id);
    lemma_contains_concat(a + b + c + d, e, id);
    lemma_contains_concat(a + b + c + d + e, f, id);
    lemma_contains_short(a, id);
    lemma_contains_short(b, id);
    lemma_contains_short(c, id);
    lemma_contains_short(d, id);
    lemma_contains_short(e, id);
    lemma_contains_short(f, id);
}

/// The registry of live windows: the single record of which roles are on
/// screen and where, together with the rendering contexts of the windows.
pub struct WindowManager {
    windows: RoleMap<ManagedWindow>,
    contexts: ContextTable,
    screen_size: [u32; 2],
}

impl View for WindowManager {
    type V = Map<WindowId, ManagedWindow>;

    /// The live windows by role.
    closed spec fn view(&self) -> Map<WindowId, ManagedWindow> {
        self.windows@
    }
}

impl WindowManager {
    /// The size of the screen that windows are placed on.
    pub closed spec fn spec_screen_size(&self) -> [u32; 2] {
        self.screen_size
    }

    /// The rendering contexts of the windows.
    pub closed spec fn spec_contexts(&self) -> ContextTable {
        self.contexts
    }

    /// The role of the window whose context is current, if any is.
    pub open spec fn spec_current(&self) -> Option<WindowId> {
        self.spec_contexts().spec_current()
    }

    /// The role of the window whose context owns the shared display.
    pub open spec fn spec_owner(&self) -> Option<WindowId> {
        self.spec_contexts().spec_owner()
    }

    /// The registry is consistent: the contexts are, and a role has a
    /// context exactly if it has a live window.
    pub open spec fn wf(&self) -> bool {
        &&& self.spec_contexts().consistent()
        &&& self.spec_contexts()@.dom() == self@.dom()
    }

    /// A registry without windows, for a screen of the given size.
    pub fn new(screen_size: [u32; 2]) -> (manager: Self)
        ensures
            manager.wf(),
            manager@ == Map::<WindowId, ManagedWindow>::empty(),
            manager.spec_contexts()@ == Map::<WindowId, EglContext>::empty(),
            manager.spec_screen_size() == screen_size,
            manager.spec_current().is_none(),
            manager.spec_owner().is_none(),
    {
        WindowManager { windows: RoleMap::new(), contexts: ContextTable::new(), screen_size }
    }

    /// The size of the screen that windows are placed on.
    #[verifier::when_used_as_spec(spec_screen_size)]
    pub fn screen_size(&self) -> (size: [u32; 2])
        ensures
            size == self.spec_screen_size(),
    {
        self.screen_size
    }

    /// The rendering contexts of the windows.
    #[verifier::when_used_as_spec(spec_contexts)]
    pub fn contexts(&self) -> (contexts: ContextTable)
        ensures
            contexts == self.spec_contexts(),
            contexts.consistent(),
    {
        self.contexts.duplicate()
    }

    /// The role of the window whose context is current, if any is.
    #[verifier::when_used_as_spec(spec_current)]
    pub fn current(&self) -> (id: Option<WindowId>)
        ensures
            id == self.spec_current(),
    {
        self.contexts.current()
    }

    /// The role of the window whose context owns the shared display, if
    /// one does. No other context owns it.
    #[verifier::when_used_as_spec(spec_owner)]
    pub fn owner(&self) -> (id: Option<WindowId>)
        ensures
            id == self.spec_owner(),
            forall|other: WindowId|
                owns_display(self.spec_contexts()@, other) <==> id == Some(other),
    {
        self.contexts.owner()
    }

    /// The live window of a role, if there is one.
    pub fn get_window(&self, id: WindowId) -> (window: Option<&ManagedWindow>)
        ensures
            window.is_some() == self@.contains_key(id),
            window matches Some(w) ==> *w == self@[id],
    {
        self.windows.get(id)
    }

    /// The live window of a role for writing, if there is one. The
    /// registry holds whatever is written.
    pub fn get_window_mut(&mut self, id: WindowId) -> (window: Option<&mut ManagedWindow>)
        ensures
            window.is_some() == old(self)@.contains_key(id),
            match window {
                Some(w) => *w == old(self)@[id] && final(self)@ == old(self)@.insert(
                    id,
                    *final(w),
                ),
                None => final(self)@ == old(self)@,
            },
            final(self).spec_screen_size() == old(self).spec_screen_size(),
            final(self).spec_contexts() == old(self).spec_contexts(),
    {
        self.windows.get_mut(id)
    }

    /// Whether a window of the role is live.
    pub fn is_live(&self, id: WindowId) -> (live: bool)
        ensures
            live == self@.contains_key(id),
    {
        self.windows.contains(id)
    }

    /// Takes note of a new screen size. Live windows stay where they are.
    pub fn update_screen_size(&mut self, size: [u32; 2])
        ensures
            final(self).spec_screen_size() == size,
            final(self)@ == old(self)@,
            final(self).spec_contexts() == old(self).spec_contexts(),
    {
        self.screen_size = size;
    }

    /// The exact top-left position that a descriptor resolves to, against
    /// the live windows and the screen size of this registry.
    pub open spec fn position_of(&self, config: &WindowConfig) -> (int, int) {
        resolve(self@, self.spec_screen_size(), config)
    }

    /// Whether the position that a descriptor resolves to fits in 32 bits.
    pub open spec fn can_place(&self, config: &WindowConfig) -> bool {
        fits_i32(self.position_of(config).0) && fits_i32(self.position_of(config).1)
    }

    fn exact_position(&self, config: &WindowConfig) -> (pos: [i64; 2])
        ensures
            pos[0] == self.position_of(config).0,
            pos[1] == self.position_of(config).1,
    {
        match config.position {
            PositionConfig::Anchored { anchor, margin } => anchored(
                self.screen_size,
                config.size,
                anchor,
                margin,
            ),
            PositionConfig::RelativeTo { window, position } => {
                match self.windows.get(window) {
                    Some(ref_window) => relative(
                        ref_window.actual_position,
                        ref_window.config.size,
                        config.size,
                        position,
                    ),
                    None => [0, 0],
                }
            },
            PositionConfig::Absolute { x, y } => [x as i64, y as i64],
        }
    }

    /// Whether a descriptor can be placed: its position fits in 32 bits.
    pub fn position_in_range(&self, config: &WindowConfig) -> (ok: bool)
        ensures
            ok == self.can_place(config),
    {
        let pos: [i64; 2] = self.exact_position(config);
        -2147483648 <= pos[0] && pos[0] <= 2147483647 && -2147483648 <= pos[1] && pos[1]
            <= 2147483647
    }

    /// Resolves the top-left position of a window from its descriptor.
    ///
    /// A window beside another one that is not live goes to the origin. A
    /// window left of a live one ends a gap before the left edge of that
    /// one, at the same height.
    pub fn calculate_position(&self, config: &WindowConfig) -> (pos: [i32; 2])
        requires
            self.can_place(config),
        ensures
            pos[0] == self.position_of(config).0,
            pos[1] == self.position_of(config).1,
            config.position matches PositionConfig::RelativeTo { window, .. } ==> (
            !self@.contains_key(window) ==> pos[0] == 0 && pos[1] == 0),
            config.position matches PositionConfig::RelativeTo {
                window,
                position: RelativePosition::LeftOf { gap },
            } ==> (self@.contains_key(window) ==> pos[0] == self@[window].actual_position[0]
                - config.size[0] - gap && pos[1] == self@[window].actual_position[1]),
    {
        let pos: [i64; 2] = self.exact_position(config);
        [pos[0] as i32, pos[1] as i32]
    }

    /// The edges that the layer surface of a descriptor is attached to:
    /// those of its corner where it is anchored, else top and left.
    pub open spec fn request_anchor(config: &WindowConfig) -> LayerAnchor {
        match config.position {
            PositionConfig::Anchored { anchor, .. } => anchor_edges(anchor),
            _ => LayerAnchor { top: true, right: false, bottom: false, left: true },
        }
    }

    /// The margins asked for the layer surface of a descriptor, as top,
    /// right, bottom, left: its own where it is anchored, else the resolved
    /// position as an offset from the top-left corner.
    pub open spec fn request_margin(&self, config: &WindowConfig) -> (int, int, int, int) {
        match config.position {
            PositionConfig::Anchored { margin, .. } => (
                margin[0] as int,
                margin[1] as int,
                margin[2] as int,
                margin[3] as int,
            ),
            _ => (self.position_of(config).1, 0, 0, self.position_of(config).0),
        }
    }

    /// What to ask of the compositor for the layer surface of a window:
    /// anchor and margins from its placement, no exclusive zone, and the
    /// size, layer and name of the descriptor.
    pub fn layer_request(&self, config: &WindowConfig) -> (req: LayerRequest)
        requires
            self.can_place(config),
        ensures
            req.anchor == Self::request_anchor(config),
            req.margin[0] == self.request_margin(config).0,
            req.margin[1] == self.request_margin(config).1,
            req.margin[2] == self.request_margin(config).2,
            req.margin[3] == self.request_margin(config).3,
            req.exclusive_zone == 0,
            req.size == config.size,
            req.layer == config.layer,
            req.name@ == config.name@,
    {
        let actual_position: [i32; 2] = self.calculate_position(config);
        match config.position {
            PositionConfig::Anchored { anchor, margin } => {
                let wl_anchor = match anchor {
                    AnchorPoint::TopLeft => LayerAnchor {
                        top: true,
                        right: false,
                        bottom: false,
                        left: true,
                    },
                    AnchorPoint::TopRight => LayerAnchor {
                        top: true,
                        right: true,
                        bottom: false,
                        left: false,
                    },
                    AnchorPoint::BottomLeft => LayerAnchor {
                        top: false,
                        right: false,
                        bottom: true,
                        left: true,
                    },
                    AnchorPoint::BottomRight => LayerAnchor {
                        top: false,
                        right: true,
                        bottom: true,
                        left: false,
                    },
                    AnchorPoint::Center => LayerAnchor {
                        top: false,
                        right: false,
                        bottom: false,
                        left: false,
                    },
                };
                LayerRequest {
                    anchor: wl_anchor,
                    margin,
                    exclusive_zone: 0,
                    size: config.size,
                    layer: config.layer,
                    name: config.name.clone(),
                }
            },
            PositionConfig::RelativeTo { .. } | PositionConfig::Absolute { .. } => LayerRequest {
                anchor: LayerAnchor { top: true, right: false, bottom: false, left: true },
                margin: [actual_position[1], 0, 0, actual_position[0]],
                exclusive_zone: 0,
                size: config.size,
                layer: config.layer,
                name: config.name.clone(),
            },
        }
    }

    /// Why a window cannot be created from a descriptor, if it cannot:
    /// the first of the four reasons that applies.
    pub open spec fn create_error(&self, config: &WindowConfig, state: &WaylandState) -> Option<
        WindowError,
    > {
        if self@.contains_key(config.id) || self.spec_contexts()@.contains_key(config.id) {
            Some(WindowError::AlreadyLive)
        } else if !state.spec_is_ready(config.id) {
            Some(WindowError::NotConfigured)
        } else if !valid_size(config.size) {
            Some(WindowError::InvalidSize)
        } else if !self.can_place(config) {
            Some(WindowError::OutOfRange)
        } else {
            None
        }
    }

    /// Enters a window into the registry, once its surfaces exist and
    /// their configure handshake has completed.
    ///
    /// The window gets a rendering context with a drawable of its own
    /// size. The context owns the shared display if it is the one to
    /// initialise it, and it becomes the current one. The position is
    /// resolved against the windows that were live before. Returns the
    /// resolved position. On an error nothing changes.
    pub fn create_window(&mut self, config: WindowConfig, state: &WaylandState) -> (res: Result<
        [i32; 2],
        WindowError,
    >)
        ensures
            old(self).wf() ==> final(self).wf(),
            final(self).spec_screen_size() == old(self).spec_screen_size(),
            match old(self).create_error(&config, state) {
                Some(e) => res == Err::<[i32; 2], WindowError>(e) && final(self)@ == old(self)@
                    && final(self).spec_contexts() == old(self).spec_contexts(),
                None => {
                    let w = final(self)@[config.id];
                    let ctx = final(self).spec_contexts()@[config.id];
                    &&& res == Ok::<[i32; 2], WindowError>(w.actual_position)
                    &&& final(self)@ == old(self)@.insert(config.id, w)
                    &&& w.surface == state.surface_of(config.id).unwrap()
                    &&& w.layer_surface == state.layer_surface_of(config.id).unwrap()
                    &&& w.config == config
                    &&& w.actual_position[0] == old(self).position_of(&config).0
                    &&& w.actual_position[1] == old(self).position_of(&config).1
                    &&& final(self).spec_contexts()@ == old(self).spec_contexts()@.insert(
                        config.id,
                        ctx,
                    )
                    &&& ctx.spec_role() == config.id
                    &&& ctx.spec_owns_display() == !old(self).spec_contexts().spec_initialized()
                    &&& ctx.spec_surface_size() == Some(
                        [config.size[0] as i32, config.size[1] as i32],
                    )
                    &&& final(self).spec_current() == Some(config.id)
                    &&& final(self).spec_owner() == (match old(self).spec_owner() {
                        Some(o) => Some(o),
                        None => Some(config.id),
                    })
                },
            },
    {
        let id: WindowId = config.id;
        if self.windows.contains(id) || self.contexts.contains(id) {
            return Err(WindowError::AlreadyLive);
        }
        if !state.is_ready(id) {
            return Err(WindowError::NotConfigured);
        }
        if config.size[0] == 0 || config.size[0] > 2147483647 || config.size[1] == 0
            || config.size[1] > 2147483647 {
            return Err(WindowError::InvalidSize);
        }
        if !self.position_in_range(&config) {
            return Err(WindowError::OutOfRange);
        }
        let actual_position: [i32; 2] = self.calculate_position(&config);
        let created = self.contexts.create(id, config.size[0] as i32, config.size[1] as i32);
        assert(created.is_ok());
        let surface: u32 = state.get_surface(id).unwrap();
        let layer_surface: u32 = state.get_layer_surface(id).unwrap();
        let window = ManagedWindow { surface, layer_surface, config, actual_position };
        self.windows.insert(id, window);
        Ok(actual_position)
    }

    /// Takes the window of a role out of the registry and returns the
    /// native steps that destroy it, in order. Where the clock window
    /// stays, its context is the current one afterwards. Without such a
    /// window nothing changes and there is nothing to do.
    pub fn destroy_window(&mut self, id: WindowId) -> (steps: Vec<TeardownStep>)
        ensures
            old(self).wf() ==> final(self).wf(),
            final(self)@ == old(self)@.remove(id),
            final(self).spec_contexts()@ == old(self).spec_contexts()@.remove(id),
            final(self).spec_screen_size() == old(self).spec_screen_size(),
            steps@ == destroy_steps(
                old(self)@,
                old(self).spec_contexts()@,
                old(self).spec_current(),
                id,
            ),
            final(self).spec_current() == current_after_destroy(
                old(self).spec_contexts()@,
                old(self).spec_current(),
                id,
            ),
            final(self).spec_current() != Some(id),
            ({
                let contexts = old(self).spec_contexts()@;
                id != WindowId::Clock && contexts.contains_key(id) && contexts.contains_key(
                    WindowId::Clock,
                ) ==> final(self).spec_current() == Some(WindowId::Clock)
            }),
            final(self).spec_owner() == (if old(self).spec_owner() == Some(id) {
                None
            } else {
                old(self).spec_owner()
            }),
    {
        let mut steps: Vec<TeardownStep> = self.contexts.destroy(id);
        match self.windows.remove(id) {
            None => {
                assert(steps@ =~= destroy_steps(
                    old(self)@,
                    old(self).spec_contexts()@,
                    old(self).spec_current(),
                    id,
                ));
            },
            Some(window) => {
                steps.push(TeardownStep::DestroyLayerSurface(id, window.layer_surface));
                steps.push(TeardownStep::DestroySurface(id, window.surface));
                assert(steps@ =~= destroy_steps(
                    old(self)@,
                    old(self).spec_contexts()@,
                    old(self).spec_current(),
                    id,
                ));
            },
        }
        steps
    }

    /// Makes the context of a window the current one. Returns whether the
    /// window has a context; if it has none, nothing changes.
    pub fn make_current(&mut self, id: WindowId) -> (bound: bool)
        ensures
            old(self).wf() ==> final(self).wf(),
            bound == old(self).spec_contexts()@.contains_key(id),
            final(self)@ == old(self)@,
            final(self).spec_contexts()@ == old(self).spec_contexts()@,
            final(self).spec_screen_size() == old(self).spec_screen_size(),
            final(self).spec_current() == (if bound {
                Some(id)
            } else {
                old(self).spec_current()
            }),
    {
        self.contexts.make_current(id)
    }

    /// Whether the frame of a window may be presented: the window needs a
    /// context, and it has to be the current one.
    pub fn swap_buffers(&self, id: WindowId) -> (res: Result<(), EglError>)
        ensures
            !self.spec_contexts()@.contains_key(id) ==> res == Err::<(), EglError>(
                EglError::NoContext,
            ),
            self.spec_contexts()@.contains_key(id) && self.spec_current() != Some(id) ==> res
                == Err::<(), EglError>(EglError::NotCurrent),
            self.spec_contexts()@.contains_key(id) && self.spec_current() == Some(id)
                ==> res.is_ok(),
    {
        self.contexts.swap_buffers(id)
    }

    /// Plans the steps that bring the live windows in line with the
    /// desired ones. Nothing is changed: each step is to be carried out
    /// and then entered with `destroy_window` or `create_window`. Where the
    /// live windows are the desired ones already, there is no step.
    pub fn reconcile(&self, desired: &RoleMap<WindowConfig>) -> (ops: Vec<WindowOp>)
        ensures
            ops@ == reconcile_plan(self@.dom(), desired@.dom(), self.spec_owner()),
            self@.dom() == desired@.dom() ==> ops@.len() == 0,
    {
        let owner: Option<WindowId> = self.owner();
        let doomed_clock: bool = self.is_live(WindowId::Clock) && !desired.contains(
            WindowId::Clock,
        );
        let doomed_timer: bool = self.is_live(WindowId::Timer) && !desired.contains(
            WindowId::Timer,
        );
        let doomed_plasma: bool = self.is_live(WindowId::Plasma) && !desired.contains(
            WindowId::Plasma,
        );
        let owner_clock: bool = matches!(owner, Some(WindowId::Clock));
        let owner_timer: bool = matches!(owner, Some(WindowId::Timer));
        let owner_plasma: bool = matches!(owner, Some(WindowId::Plasma));
        let mut ops: Vec<WindowOp> = Vec::new();
        push_if(&mut ops, doomed_clock && !owner_clock, WindowOp::Destroy(WindowId::Clock));
        push_if(&mut ops, doomed_timer && !owner_timer, WindowOp::Destroy(WindowId::Timer));
        push_if(&mut ops, doomed_plasma && !owner_plasma, WindowOp::Destroy(WindowId::Plasma));
        match owner {
            Some(WindowId::Clock) => push_if(
                &mut ops,
                doomed_clock,
                WindowOp::Destroy(WindowId::Clock),
            ),
            Some(WindowId::Timer) => push_if(
                &mut ops,
                doomed_timer,
                WindowOp::Destroy(WindowId::Timer),
            ),
            Some(WindowId::Plasma) => push_if(
                &mut ops,
                doomed_plasma,
                WindowOp::Destroy(WindowId::Plasma),
            ),
            None => {},
        }
        push_if(
            &mut ops,
            desired.contains(WindowId::Clock) && !self.is_live(WindowId::Clock),
            WindowOp::Create(WindowId::Clock),
        );
        push_if(
            &mut ops,
            desired.contains(WindowId::Timer) && !self.is_live(WindowId::Timer),
            WindowOp::Create(WindowId::Timer),
        );
        push_if(
            &mut ops,
            desired.contains(WindowId::Plasma) && !self.is_live(WindowId::Plasma),
            WindowOp::Create(WindowId::Plasma),
        );
        assert(ops@ =~= reconcile_plan(self@.dom(), desired@.dom(), self.spec_owner()));
        proof {
            if self@.dom() == desired@.dom() {
                lemma_reconcile_settled(desired@.dom(), self.spec_owner());
            }
        }
        ops
    }

    fn settle_role(&mut self, id: WindowId) -> (changed: bool)
        ensures
            final(self)@ == settle(old(self)@, old(self).spec_screen_size(), id),
            final(self).spec_screen_size() == old(self).spec_screen_size(),
            final(self).spec_contexts() == old(self).spec_contexts(),
            changed == moved(old(self)@, final(self)@, id),
    {
        let pos: [i64; 2] = match self.windows.get(id) {
            None => {
                return false;
            },
            Some(window) => self.exact_position(&window.config),
        };
        if -2147483648 <= pos[0] && pos[0] <= 2147483647 && -2147483648 <= pos[1] && pos[1]
            <= 2147483647 {
            let mut window: ManagedWindow = self.windows.remove(id).unwrap();
            let changed: bool = window.actual_position[0] as i64 != pos[0]
                || window.actual_position[1] as i64 != pos[1];
            window.actual_position = [pos[0] as i32, pos[1] as i32];
            self.windows.insert(id, window);
            assert(self@ =~= settle(old(self)@, old(self).spec_screen_size(), id));
            changed
        } else {
            false
        }
    }

    /// Resolves the position of every live window anew, one after the
    /// other: clock, timer, effect. Returns the roles whose window has
    /// moved, in that order.
    pub fn relayout(&mut self) -> (roles: Vec<WindowId>)
        ensures
            old(self).wf() ==> final(self).wf(),
            final(self)@ == settle_all(old(self)@, old(self).spec_screen_size()),
            final(self).spec_screen_size() == old(self).spec_screen_size(),
            final(self).spec_contexts() == old(self).spec_contexts(),
            roles@ == moved_role(old(self)@, final(self)@, WindowId::Clock) + moved_role(
                old(self)@,
                final(self)@,
                WindowId::Timer,
            ) + moved_role(old(self)@, final(self)@, WindowId::Plasma),
    {
        let mut roles: Vec<WindowId> = Vec::new();
        if self.settle_role(WindowId::Clock) {
            roles.push(WindowId::Clock);
        }
        if self.settle_role(WindowId::Timer) {
            roles.push(WindowId::Timer);
        }
        if self.settle_role(WindowId::Plasma) {
            roles.push(WindowId::Plasma);
        }
        assert(roles@ =~= moved_role(old(self)@, self@, WindowId::Clock) + moved_role(
            old(self)@,
            self@,
            WindowId::Timer,
        ) + moved_role(old(self)@, self@, WindowId::Plasma));
        assert(self@.dom() =~= old(self)@.dom());
        roles
    }

    /// The margins that hold the live window of a role in place, as top,
    /// right, bottom, left: its own where it is anchored, else its
    /// resolved position as an offset from the top-left corner.
    pub fn placement_margin(&self, id: WindowId) -> (margin: Option<[i32; 4]>)
        ensures
            margin.is_some() == self@.contains_key(id),
            margin matches Some(m) ==> (match self@[id].config.position {
                PositionConfig::Anchored { margin, .. } => m == margin,
                _ => m[0] == self@[id].actual_position[1] && m[1] == 0 && m[2] == 0 && m[3]
                    == self@[id].actual_position[0],
            }),
    {
        match self.windows.get(id) {
            None => None,
            Some(window) => match window.config.position {
                PositionConfig::Anchored { anchor: _, margin } => Some(margin),
                _ => Some([window.actual_position[1], 0, 0, window.actual_position[0]]),
            },
        }
    }

    /// Gives the live window of a role a new size, and resizes the
    /// drawable of its context in place. The position stays as it is until
    /// the next `relayout`, and the current context stays. On an error
    /// nothing changes.
    pub fn resize_window(&mut self, id: WindowId, size: [u32; 2]) -> (res: Result<
        (),
        WindowError,
    >)
        ensures
            old(self).wf() ==> final(self).wf(),
            final(self).spec_screen_size() == old(self).spec_screen_size(),
            final(self).spec_current() == old(self).spec_current(),
            final(self).spec_contexts().spec_display() == old(self).spec_contexts().spec_display(),
            !old(self)@.contains_key(id) ==> {
                &&& res == Err::<(), WindowError>(WindowError::NotLive)
                &&& final(self)@ == old(self)@
                &&& final(self).spec_contexts()@ == old(self).spec_contexts()@
            },
            old(self)@.contains_key(id) && !valid_size(size) ==> {
                &&& res == Err::<(), WindowError>(WindowError::InvalidSize)
                &&& final(self)@ == old(self)@
                &&& final(self).spec_contexts()@ == old(self).spec_contexts()@
            },
            old(self)@.contains_key(id) && valid_size(size) ==> {
                let before = old(self)@[id];
                let after = final(self)@[id];
                let contexts = old(self).spec_contexts()@;
                let resized = final(self).spec_contexts()@;
                &&& res.is_ok()
                &&& final(self)@ == old(self)@.insert(id, after)
                &&& after == (ManagedWindow {
                    config: WindowConfig { size, ..before.config },
                    ..before
                })
                &&& (contexts.contains_key(id) ==> {
                    &&& resized == contexts.insert(id, resized[id])
                    &&& resized[id].spec_role() == id
                    &&& resized[id].spec_owns_display() == contexts[id].spec_owns_display()
                    &&& resized[id].spec_surface_size() == Some([size[0] as i32, size[1] as i32])
                })
                &&& (!contexts.contains_key(id) ==> resized == contexts)
            },
    {
        if !self.windows.contains(id) {
            return Err(WindowError::NotLive);
        }
        if size[0] == 0 || size[0] > 2147483647 || size[1] == 0 || size[1] > 2147483647 {
            return Err(WindowError::InvalidSize);
        }
        let mut window: ManagedWindow = self.windows.remove(id).unwrap();
        window.config.size = size;
        self.windows.insert(id, window);
        let _ = self.contexts.resize(id, size[0] as i32, size[1] as i32);
        proof {
            assert(self@.dom() =~= old(self)@.dom());
            if old(self).spec_contexts()@.contains_key(id) {
                assert(self.spec_contexts()@.dom() =~= old(self).spec_contexts()@.dom());
            }
        }
        Ok(())
    }

    /// Takes every window out of the registry, those that own the shared
    /// display last, and returns the native steps that destroy them, in
    /// order.
    pub fn destroy_all(&mut self) -> (steps: Vec<TeardownStep>)
        ensures
            final(self).wf(),
            final(self)@ == Map::<WindowId, ManagedWindow>::empty(),
            final(self).spec_contexts()@ == Map::<WindowId, EglContext>::empty(),
            final(self).spec_current().is_none(),
            final(self).spec_owner().is_none(),
            final(self).spec_screen_size() == old(self).spec_screen_size(),
            steps@ == destroy_all_steps(
                old(self)@,
                old(self).spec_contexts()@,
                old(self).spec_current(),
                shutdown_order(old(self)@, old(self).spec_contexts()@),
            ),
    {
        let mut order: Vec<WindowId> = Vec::new();
        self.push_role(&mut order, WindowId::Clock, false);
        self.push_role(&mut order, WindowId::Timer, false);
        self.push_role(&mut order, WindowId::Plasma, false);
        self.push_role(&mut order, WindowId::Clock, true);
        self.push_role(&mut order, WindowId::Timer, true);
        self.push_role(&mut order, WindowId::Plasma, true);
        assert(order@ =~= shutdown_order(self@, self.spec_contexts()@));
        let ghost all = shutdown_order(self@, self.spec_contexts()@);
        let mut steps: Vec<TeardownStep> = Vec::new();
        let mut i: usize = 0;
        proof {
            assert(order@.skip(0) =~= order@);
            assert(steps@ + destroy_all_steps(
                self@,
                self.spec_contexts()@,
                self.spec_current(),
                order@,
            ) =~= destroy_all_steps(self@, self.spec_contexts()@, self.spec_current(), order@));
            assert forall|id: WindowId|
                self@.contains_key(id) || self.spec_contexts()@.contains_key(
                    id,
                ) implies #[trigger] order@.contains(id) by {
                lemma_shutdown_order_complete(self@, self.spec_contexts()@, id);
            }
        }
        while i < order.len()
            invariant
                0 <= i <= order.len(),
                order@ == all,
                self.spec_screen_size() == old(self).spec_screen_size(),
                steps@ + destroy_all_steps(
                    self@,
                    self.spec_contexts()@,
                    self.spec_current(),
                    order@.skip(i as int),
                ) == destroy_all_steps(
                    old(self)@,
                    old(self).spec_contexts()@,
                    old(self).spec_current(),
                    all,
                ),
                forall|id: WindowId|
                    self@.contains_key(id) || self.spec_contexts()@.contains_key(id)
                        ==> #[trigger] order@.skip(i as int).contains(id),
            decreases order.len() - i,
        {
            let id: WindowId = order[i];
            let ghost rest = order@.skip(i as int);
            let ghost before = steps@;
            let ghost windows = self@;
            let ghost contexts = self.spec_contexts()@;
            let ghost current = self.spec_current();
            let mut more: Vec<TeardownStep> = self.destroy_window(id);
            steps.append(&mut more);
            proof {
                assert(rest[0] == id);
                assert(rest.skip(1) =~= order@.skip(i as int + 1));
                assert(steps@ =~= before + destroy_steps(windows, contexts, current, id));
                assert(before + destroy_all_steps(windows, contexts, current, rest) =~= (before
                    + destroy_steps(windows, contexts, current, id)) + destroy_all_steps(
                    self@,
                    self.spec_contexts()@,
                    self.spec_current(),
                    rest.skip(1),
                ));
                assert forall|other: WindowId|
                    self@.contains_key(other) || self.spec_contexts()@.contains_key(
                        other,
                    ) implies #[trigger] order@.skip(i as int + 1).contains(other) by {
                    assert((windows.contains_key(other) || contexts.contains_key(other)) && other
                        != id);
                    assert(rest.contains(other));
                    let k = choose|k: int| 0 <= k < rest.len() && rest[k] == other;
                    assert(k > 0);
                    assert(order@.skip(i as int + 1)[k - 1] == other);
                }
            }
            i += 1;
        }
        let _ = self.contexts.owner();
        proof {
            assert(order@.skip(i as int).len() == 0);
            assert forall|id: WindowId|
                !self@.contains_key(id) && !self.spec_contexts()@.contains_key(id) by {
                if self@.contains_key(id) || self.spec_contexts()@.contains_key(id) {
                    assert(order@.skip(i as int).contains(id));
                }
            }
            assert(self@ =~= Map::<WindowId, ManagedWindow>::empty());
            assert(self.spec_contexts()@ =~= Map::<WindowId, EglContext>::empty());
            assert(steps@ + Seq::<TeardownStep>::empty() =~= steps@);
        }
        steps
    }

    fn push_role(&self, order: &mut Vec<WindowId>, id: WindowId, owner: bool)
        ensures
            final(order)@ == old(order)@ + (if owner {
                owner_role(self.spec_contexts()@, id)
            } else {
                other_role(self@, self.spec_contexts()@, id)
            }),
    {
        let owns: bool = match self.contexts.get(id) {
            Some(ctx) => ctx.owns_display(),
            None => false,
        };
        let present: bool = self.windows.contains(id) || self.contexts.contains(id);
        if present && owns == owner {
            order.push(id);
            assert(order@ =~= old(order)@ + seq![id]);
        } else {
            assert(order@ =~= old(order)@ + Seq::<WindowId>::empty());
        }
    }
}

} // verus!
