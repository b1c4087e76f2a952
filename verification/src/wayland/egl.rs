//! The state of the rendering contexts, without the native handles.
//!
//! All contexts share one display. The first context of a process
//! initialises the display and terminates it when it is torn down; every
//! later context attaches to the same display and leaves it alone. At most
//! one context is current at a time, and a frame can only be presented
//! through the one that is.

use vstd::prelude::*;

use super::window_manager::WindowId;

verus! {

/// Why an operation on a rendering context cannot be carried out.
#[derive(Debug, Clone, Copy, PartialEq, Eq, Structural)]
pub enum EglError {
    /// The width or the height of a drawable is zero or negative.
    InvalidSize,
    /// The context has no drawable.
    NoSurface,
    /// Another context, or none, is current.
    NotCurrent,
    /// The window has no context.
    NoContext,
    /// The window has a context already.
    ContextExists,
}

/// One native action of a teardown, in the order it has to be performed.
#[derive(Debug, Clone, Copy, PartialEq, Eq, Structural)]
pub enum TeardownStep {
    /// Make the context of this window current.
    MakeCurrent(WindowId),
    /// Leave no context current.
    ReleaseCurrent,
    /// Destroy the drawable bound to the context of this window.
    DestroyDrawable(WindowId),
    /// Destroy the context of this window.
    DestroyContext(WindowId),
    /// Terminate the shared display.
    TerminateDisplay,
    /// Destroy the layer surface of this window, with this object id.
    DestroyLayerSurface(WindowId, u32),
    /// Destroy the compositor surface of this window, with this object id.
    DestroySurface(WindowId, u32),
}

/// What a rendering context asks of the display: the bits of each colour
/// channel of a window drawable, and the version of the rendering API.
#[derive(Debug, Clone, Copy, PartialEq, Eq, Structural)]
pub struct ConfigRequest {
    pub red_size: i32,
    pub green_size: i32,
    pub blue_size: i32,
    pub alpha_size: i32,
    pub client_version: i32,
}

/// The display that all contexts share: whether a context has initialised
/// it, and the window whose context is current, if any is.
#[derive(Debug, Clone, Copy, PartialEq, Eq, Structural)]
pub struct EglDisplay {
    initialized: bool,
    current: Option<WindowId>,
}

/// The rendering context of one window: whether it owns the shared
/// display, and the pixel size of the drawable bound to it, if any.
#[derive(Debug, Clone, Copy)]
pub struct EglContext {
    role: WindowId,
    owns_display: bool,
    surface: Option<[i32; 2]>,
}

/// The steps that tear down the context of a window, which owns the
/// display or not, has a drawable or not, and is current or not: release,
/// drawable, context, display.
pub open spec fn teardown_steps(
    role: WindowId,
    owns_display: bool,
    bound: bool,
    is_current: bool,
) -> Seq<TeardownStep> {
    (if is_current {
        seq![TeardownStep::ReleaseCurrent]
    } else {
        Seq::<TeardownStep>::empty()
    }) + (if bound {
        seq![TeardownStep::DestroyDrawable(role)]
    } else {
        Seq::<TeardownStep>::empty()
    }) + seq![TeardownStep::DestroyContext(role)] + (if owns_display {
        seq![TeardownStep::TerminateDisplay]
    } else {
        Seq::<TeardownStep>::empty()
    })
}

impl EglDisplay {
    /// Whether a context has initialised the display and not yet
    /// terminated it.
    pub closed spec fn spec_initialized(&self) -> bool {
        self.initialized
    }

    /// The window whose context is current, if any is.
    pub closed spec fn spec_current(&self) -> Option<WindowId> {
        self.current
    }

    /// A display that no context has initialised yet.
    pub fn new() -> (display: Self)
        ensures
            !display.spec_initialized(),
            display.spec_current().is_none(),
    {
        EglDisplay { initialized: false, current: None }
    }

    /// Whether a context has initialised the display and not yet
    /// terminated it.
    #[verifier::when_used_as_spec(spec_initialized)]
    pub fn initialized(&self) -> (initialized: bool)
        ensures
            initialized == self.spec_initialized(),
    {
        self.initialized
    }

    /// The window whose context is current, if any is.
    #[verifier::when_used_as_spec(spec_current)]
    pub fn current(&self) -> (current: Option<WindowId>)
        ensures
            current == self.spec_current(),
    {
        self.current
    }
}

impl EglContext {
    /// The window that the context belongs to.
    pub closed spec fn spec_role(&self) -> WindowId {
        self.role
    }

    /// Whether this context terminates the shared display when torn down.
    pub closed spec fn spec_owns_display(&self) -> bool {
        self.owns_display
    }

    /// The size of the bound drawable, if one is bound.
    pub closed spec fn spec_surface_size(&self) -> Option<[i32; 2]> {
        self.surface
    }

    /// What every context asks of the display: eight bits for each of
    /// red, green, blue and alpha, and version 2 of the rendering API.
    pub fn config_request() -> (req: ConfigRequest)
        ensures
            req == (ConfigRequest {
                red_size: 8,
                green_size: 8,
                blue_size: 8,
                alpha_size: 8,
                client_version: 2,
            }),
    {
        ConfigRequest { red_size: 8, green_size: 8, blue_size: 8, alpha_size: 8, client_version: 2 }
    }

    /// A context that initialises the display and owns it.
    pub fn new(display: &mut EglDisplay, role: WindowId) -> (ctx: Self)
        ensures
            ctx.spec_role() == role,
            ctx.spec_owns_display(),
            ctx.spec_surface_size().is_none(),
            final(display).spec_initialized(),
            final(display).spec_current() == old(display).spec_current(),
    {
        display.initialized = true;
        EglContext { role, owns_display: true, surface: None }
    }

    /// A context that shares the display and never terminates it.
    pub fn new_shared(role: WindowId) -> (ctx: Self)
        ensures
            ctx.spec_role() == role,
            !ctx.spec_owns_display(),
            ctx.spec_surface_size().is_none(),
    {
        EglContext { role, owns_display: false, surface: None }
    }

    /// The next context on a display: the first one initialises the
    /// display and owns it, every later one shares it.
    pub fn create(display: &mut EglDisplay, role: WindowId) -> (ctx: Self)
        ensures
            ctx.spec_role() == role,
            ctx.spec_owns_display() == !old(display).spec_initialized(),
            ctx.spec_surface_size().is_none(),
            final(display).spec_initialized(),
            final(display).spec_current() == old(display).spec_current(),
    {
        if display.initialized {
            EglContext::new_shared(role)
        } else {
            EglContext::new(display, role)
        }
    }

    /// The window that the context belongs to.
    #[verifier::when_used_as_spec(spec_role)]
    pub fn role(&self) -> (role: WindowId)
        ensures
            role == self.spec_role(),
    {
        self.role
    }

    /// Whether this context terminates the shared display when torn down.
    #[verifier::when_used_as_spec(spec_owns_display)]
    pub fn owns_display(&self) -> (owns: bool)
        ensures
            owns == self.spec_owns_display(),
    {
        self.owns_display
    }

    /// The size of the bound drawable, if one is bound.
    #[verifier::when_used_as_spec(spec_surface_size)]
    pub fn surface_size(&self) -> (size: Option<[i32; 2]>)
        ensures
            size == self.spec_surface_size(),
    {
        self.surface
    }

    /// Binds a new drawable of `width` by `height` pixels, in place of the
    /// one bound before, and makes the context current. Returns whether
    /// there was a drawable to destroy first. A size that is not positive
    /// is refused, and nothing changes.
    pub fn create_surface(&mut self, display: &mut EglDisplay, width: i32, height: i32) -> (res:
        Result<bool, EglError>)
        ensures
            final(self).spec_role() == old(self).spec_role(),
            final(self).spec_owns_display() == old(self).spec_owns_display(),
            final(display).spec_initialized() == old(display).spec_initialized(),
            width <= 0 || height <= 0 ==> {
                &&& res == Err::<bool, EglError>(EglError::InvalidSize)
                &&& final(self).spec_surface_size() == old(self).spec_surface_size()
                &&& final(display).spec_current() == old(display).spec_current()
            },
            width > 0 && height > 0 ==> {
                &&& res == Ok::<bool, EglError>(old(self).spec_surface_size().is_some())
                &&& final(self).spec_surface_size() == Some([width, height])
                &&& final(display).spec_current() == Some(old(self).spec_role())
            },
    {
        if width <= 0 || height <= 0 {
            return Err(EglError::InvalidSize);
        }
        let replaced: bool = self.surface.is_some();
        self.surface = Some([width, height]);
        display.current = Some(self.role);
        Ok(replaced)
    }

    /// Resizes the bound drawable in place, without binding anew. Without
    /// a drawable nothing changes. Returns whether there is a drawable to
    /// resize.
    pub fn resize(&mut self, width: i32, height: i32) -> (resized: bool)
        ensures
            final(self).spec_role() == old(self).spec_role(),
            final(self).spec_owns_display() == old(self).spec_owns_display(),
            resized == old(self).spec_surface_size().is_some(),
            final(self).spec_surface_size() == (if resized {
                Some([width, height])
            } else {
                None
            }),
    {
        if self.surface.is_some() {
            self.surface = Some([width, height]);
            true
        } else {
            false
        }
    }

    /// Makes the context the current one. Only a context with a drawable
    /// can be current: without one nothing changes. Returns whether the
    /// context is now current.
    pub fn make_current(&self, display: &mut EglDisplay) -> (bound: bool)
        ensures
            bound == self.spec_surface_size().is_some(),
            final(display).spec_initialized() == old(display).spec_initialized(),
            final(display).spec_current() == (if bound {
                Some(self.spec_role())
            } else {
                old(display).spec_current()
            }),
    {
        if self.surface.is_some() {
            display.current = Some(self.role);
            true
        } else {
            false
        }
    }

    /// Whether the frame of this context may be presented: the context
    /// needs a drawable and has to be the current one.
    pub fn swap_buffers(&self, display: &EglDisplay) -> (res: Result<(), EglError>)
        ensures
            self.spec_surface_size().is_none() ==> res == Err::<(), EglError>(EglError::NoSurface),
            self.spec_surface_size().is_some() && display.spec_current() != Some(
                self.spec_role(),
            ) ==> res == Err::<(), EglError>(EglError::NotCurrent),
            self.spec_surface_size().is_some() && display.spec_current() == Some(
                self.spec_role(),
            ) ==> res.is_ok(),
    {
        if self.surface.is_none() {
            return Err(EglError::NoSurface);
        }
        match display.current {
            Some(c) if c == self.role => Ok(()),
            _ => Err(EglError::NotCurrent),
        }
    }

    /// Tears the context down and returns the native steps to perform, in
    /// order. The context is released first if it is the current one, and
    /// the display is terminated last if the context owns it.
    pub fn teardown(&self, display: &mut EglDisplay) -> (steps: Vec<TeardownStep>)
        ensures
            steps@ == teardown_steps(
                self.spec_role(),
                self.spec_owns_display(),
                self.spec_surface_size().is_some(),
                old(display).spec_current() == Some(self.spec_role()),
            ),
            final(display).spec_current() == (if old(display).spec_current() == Some(
                self.spec_role(),
            ) {
                None
            } else {
                old(display).spec_current()
            }),
            final(display).spec_initialized() == (old(display).spec_initialized()
                && !self.spec_owns_display()),
    {
        let mut steps: Vec<TeardownStep> = Vec::new();
        let is_current: bool = match display.current {
            Some(c) => c == self.role,
            None => false,
        };
        if is_current {
            steps.push(TeardownStep::ReleaseCurrent);
            display.current = None;
        }
        if self.surface.is_some() {
            steps.push(TeardownStep::DestroyDrawable(self.role));
        }
        steps.push(TeardownStep::DestroyContext(self.role));
        if self.owns_display {
            steps.push(TeardownStep::TerminateDisplay);
            display.initialized = false;
        }
        steps
    }
}

/// The window whose context owns the display, the first of clock, timer,
/// effect that does.
pub open spec fn owner_of(contexts: Map<WindowId, EglContext>) -> Option<WindowId> {
    if contexts.contains_key(WindowId::Clock) && contexts[WindowId::Clock].spec_owns_display() {
        Some(WindowId::Clock)
    } else if contexts.contains_key(WindowId::Timer)
        && contexts[WindowId::Timer].spec_owns_display() {
        Some(WindowId::Timer)
    } else if contexts.contains_key(WindowId::Plasma)
        && contexts[WindowId::Plasma].spec_owns_display() {
        Some(WindowId::Plasma)
    } else {
        None
    }
}

/// Whether the context of the clock stays when that of `id` goes, so that
/// it can take over as the current one.
pub open spec fn primary_takes_over(contexts: Map<WindowId, EglContext>, id: WindowId) -> bool {
    id != WindowId::Clock && contexts.contains_key(WindowId::Clock)
}

/// The current context after that of `id` is destroyed: that of the clock
/// where it stays, else none if the destroyed one was current. Without a
/// context of `id` it stays as it is.
pub open spec fn current_after_destroy(
    contexts: Map<WindowId, EglContext>,
    current: Option<WindowId>,
    id: WindowId,
) -> Option<WindowId> {
    if !contexts.contains_key(id) {
        current
    } else if primary_takes_over(contexts, id) {
        Some(WindowId::Clock)
    } else if current == Some(id) {
        None
    } else {
        current
    }
}

/// The native steps that destroy the context of `id`, in order: the
/// context of the clock is made current, unless it is already or is not
/// there to take over; then the context is torn down. Without a context of
/// `id` there is no step.
pub open spec fn destroy_context_steps(
    contexts: Map<WindowId, EglContext>,
    current: Option<WindowId>,
    id: WindowId,
) -> Seq<TeardownStep> {
    if !contexts.contains_key(id) {
        Seq::<TeardownStep>::empty()
    } else {
        (if primary_takes_over(contexts, id) && current != Some(WindowId::Clock) {
            seq![TeardownStep::MakeCurrent(WindowId::Clock)]
        } else {
            Seq::<TeardownStep>::empty()
        }) + teardown_steps(
            contexts[id].spec_role(),
            contexts[id].spec_owns_display(),
            contexts[id].spec_surface_size().is_some(),
            !primary_takes_over(contexts, id) && current == Some(id),
        )
    }
}

/// Why a context cannot be created for a window, if it cannot.
pub open spec fn create_refusal(
    contexts: Map<WindowId, EglContext>,
    id: WindowId,
    width: i32,
    height: i32,
) -> Option<EglError> {
    if contexts.contains_key(id) {
        Some(EglError::ContextExists)
    } else if width <= 0 || height <= 0 {
        Some(EglError::InvalidSize)
    } else {
        None
    }
}

/// The contexts of all windows and the display they share.
///
/// Every context in the table sits under its own window and has a
/// drawable. At most one of them owns the display, and the display is
/// initialised exactly while one does. The current context is one of the
/// table.
#[derive(Debug, Clone, Copy)]
pub struct ContextTable {
    clock: Option<EglContext>,
    timer: Option<EglContext>,
    plasma: Option<EglContext>,
    display: EglDisplay,
}

impl ContextTable {
    spec fn slot(&self, id: WindowId) -> Option<EglContext> {
        match id {
            WindowId::Clock => self.clock,
            WindowId::Timer => self.timer,
            WindowId::Plasma => self.plasma,
        }
    }

    spec fn slot_ok(&self, id: WindowId) -> bool {
        self.slot(id) matches Some(c) ==> c.role == id && c.surface.is_some()
    }

    spec fn slot_owns(&self, id: WindowId) -> bool {
        self.slot(id) matches Some(c) && c.owns_display
    }

    #[verifier::type_invariant]
    spec fn inv(self) -> bool {
        &&& self.slot_ok(WindowId::Clock)
        &&& self.slot_ok(WindowId::Timer)
        &&& self.slot_ok(WindowId::Plasma)
        &&& !(self.slot_owns(WindowId::Clock) && self.slot_owns(WindowId::Timer))
        &&& !(self.slot_owns(WindowId::Clock) && self.slot_owns(WindowId::Plasma))
        &&& !(self.slot_owns(WindowId::Timer) && self.slot_owns(WindowId::Plasma))
        &&& self.display.initialized == (self.slot_owns(WindowId::Clock) || self.slot_owns(
            WindowId::Timer,
        ) || self.slot_owns(WindowId::Plasma))
        &&& (self.display.current matches Some(c) ==> self.slot(c).is_some())
    }
}

impl View for ContextTable {
    type V = Map<WindowId, EglContext>;

    /// The contexts by window.
    closed spec fn view(&self) -> Map<WindowId, EglContext> {
        Map::new(|id: WindowId| self.slot(id).is_some(), |id: WindowId| self.slot(id).unwrap())
    }
}

impl ContextTable {
    /// The display that the contexts share.
    pub closed spec fn spec_display(&self) -> EglDisplay {
        self.display
    }

    /// The window whose context is current, if any is.
    pub open spec fn spec_current(&self) -> Option<WindowId> {
        self.spec_display().spec_current()
    }

    /// Whether a context has initialised the display.
    pub open spec fn spec_initialized(&self) -> bool {
        self.spec_display().spec_initialized()
    }

    /// Whether the window has a context that owns the display.
    pub open spec fn owns(&self, id: WindowId) -> bool {
        self@.contains_key(id) && self@[id].spec_owns_display()
    }

    /// The window whose context owns the display, if one does.
    pub open spec fn spec_owner(&self) -> Option<WindowId> {
        owner_of(self@)
    }

    /// The context of a window, if it has one, belongs to that window and
    /// has a drawable.
    pub open spec fn context_ok(&self, id: WindowId) -> bool {
        self@.contains_key(id) ==> self@[id].spec_role() == id
            && self@[id].spec_surface_size().is_some()
    }

    /// What holds of every table: each context sits under its own window
    /// and has a drawable, at most one context owns the display, the
    /// display is initialised exactly while one does, and the current
    /// context is one of the table.
    pub open spec fn consistent(&self) -> bool {
        &&& self.context_ok(WindowId::Clock)
        &&& self.context_ok(WindowId::Timer)
        &&& self.context_ok(WindowId::Plasma)
        &&& !(self.owns(WindowId::Clock) && self.owns(WindowId::Timer))
        &&& !(self.owns(WindowId::Clock) && self.owns(WindowId::Plasma))
        &&& !(self.owns(WindowId::Timer) && self.owns(WindowId::Plasma))
        &&& self.spec_initialized() == self.spec_owner().is_some()
        &&& (self.spec_current() matches Some(c) ==> self@.contains_key(c))
    }

    proof fn lemma_consistent(self)
        requires
            self.inv(),
        ensures
            self.consistent(),
    {
    }

    /// In a table the context of a window owns the display exactly if the
    /// window is the one that the table names as the owner: no two
    /// contexts own it.
    pub proof fn lemma_single_owner(&self, id: WindowId)
        requires
            self.consistent(),
        ensures
            self.owns(id) <==> self.spec_owner() == Some(id),
    {
    }

    /// While the display is initialised, exactly one context of the table
    /// owns it: the one that initialised it.
    pub proof fn lemma_exactly_one_owner(&self)
        requires
            self.consistent(),
            self.spec_initialized(),
        ensures
            self.spec_owner() matches Some(owner) && self.owns(owner) && forall|id: WindowId|
                self.owns(id) ==> id == owner,
    {
    }

    /// A table without contexts, on a display that is not initialised.
    pub fn new() -> (table: Self)
        ensures
            table.consistent(),
            table@ == Map::<WindowId, EglContext>::empty(),
            !table.spec_initialized(),
            table.spec_current().is_none(),
    {
        let table = ContextTable {
            clock: None,
            timer: None,
            plasma: None,
            display: EglDisplay::new(),
        };
        proof {
            assert(table@ =~= Map::<WindowId, EglContext>::empty());
            table.lemma_consistent();
        }
        table
    }

    /// A copy of the table.
    pub fn duplicate(&self) -> (copy: Self)
        ensures
            copy == *self,
            copy.consistent(),
    {
        proof {
            use_type_invariant(self);
            self.lemma_consistent();
        }
        *self
    }

    /// The context of a window, if it has one.
    pub fn get(&self, id: WindowId) -> (ctx: Option<EglContext>)
        ensures
            self.consistent(),
            ctx.is_some() == self@.contains_key(id),
            ctx matches Some(c) ==> c == self@[id],
    {
        proof {
            use_type_invariant(self);
            self.lemma_consistent();
        }
        match id {
            WindowId::Clock => self.clock,
            WindowId::Timer => self.timer,
            WindowId::Plasma => self.plasma,
        }
    }

    /// Whether a window has a context.
    pub fn contains(&self, id: WindowId) -> (held: bool)
        ensures
            held == self@.contains_key(id),
    {
        self.get(id).is_some()
    }

    /// The window whose context is current, if any is.
    #[verifier::when_used_as_spec(spec_current)]
    pub fn current(&self) -> (id: Option<WindowId>)
        ensures
            id == self.spec_current(),
    {
        self.display.current()
    }

    /// Whether a context has initialised the display: the next context
    /// will share it.
    #[verifier::when_used_as_spec(spec_initialized)]
    pub fn initialized(&self) -> (initialized: bool)
        ensures
            initialized == self.spec_initialized(),
    {
        self.display.initialized()
    }

    /// The window whose context owns the display, if one does. No other
    /// context owns it.
    #[verifier::when_used_as_spec(spec_owner)]
    pub fn owner(&self) -> (id: Option<WindowId>)
        ensures
            self.consistent(),
            id == self.spec_owner(),
            forall|other: WindowId| self.owns(other) <==> id == Some(other),
    {
        proof {
            use_type_invariant(self);
            self.lemma_consistent();
        }
        if let Some(c) = self.clock {
            if c.owns_display() {
                return Some(WindowId::Clock);
            }
        }
        if let Some(c) = self.timer {
            if c.owns_display() {
                return Some(WindowId::Timer);
            }
        }
        if let Some(c) = self.plasma {
            if c.owns_display() {
                return Some(WindowId::Plasma);
            }
        }
        None
    }

    fn with_slot(&self, id: WindowId, ctx: Option<EglContext>, display: EglDisplay) -> (next:
        Self)
        requires
            (ContextTable {
                clock: if id == WindowId::Clock {
                    ctx
                } else {
                    self.clock
                },
                timer: if id == WindowId::Timer {
                    ctx
                } else {
                    self.timer
                },
                plasma: if id == WindowId::Plasma {
                    ctx
                } else {
                    self.plasma
                },
                display,
            }).inv(),
        ensures
            next.consistent(),
            next.spec_display() == display,
            next@ == (match ctx {
                Some(c) => self@.insert(id, c),
                None => self@.remove(id),
            }),
    {
        let next = match id {
            WindowId::Clock => ContextTable {
                clock: ctx,
                timer: self.timer,
                plasma: self.plasma,
                display,
            },
            WindowId::Timer => ContextTable {
                clock: self.clock,
                timer: ctx,
                plasma: self.plasma,
                display,
            },
            WindowId::Plasma => ContextTable {
                clock: self.clock,
                timer: self.timer,
                plasma: ctx,
                display,
            },
        };
        proof {
            next.lemma_consistent();
            assert(next@ =~= (match ctx {
                Some(c) => self@.insert(id, c),
                None => self@.remove(id),
            }));
        }
        next
    }

    /// Creates the context of a window with a drawable of `width` by
    /// `height` pixels, and makes it current. The context owns the display
    /// if it is the one to initialise it. Returns whether it does. A window
    /// that has a context, or a size that is not positive, is refused, and
    /// nothing changes.
    pub fn create(&mut self, id: WindowId, width: i32, height: i32) -> (res: Result<
        bool,
        EglError,
    >)
        ensures
            final(self).consistent(),
            match create_refusal(old(self)@, id, width, height) {
                Some(e) => {
                    &&& res == Err::<bool, EglError>(e)
                    &&& final(self)@ == old(self)@
                    &&& final(self).spec_display() == old(self).spec_display()
                },
                None => {
                    let ctx = final(self)@[id];
                    &&& res == Ok::<bool, EglError>(!old(self).spec_initialized())
                    &&& final(self)@ == old(self)@.insert(id, ctx)
                    &&& ctx.spec_role() == id
                    &&& ctx.spec_owns_display() == !old(self).spec_initialized()
                    &&& ctx.spec_surface_size() == Some([width, height])
                    &&& final(self).spec_current() == Some(id)
                    &&& final(self).spec_initialized()
                    &&& final(self).spec_owner() == (match old(self).spec_owner() {
                        Some(o) => Some(o),
                        None => Some(id),
                    })
                },
            },
    {
        proof {
            use_type_invariant(&*self);
            self.lemma_consistent();
        }
        if self.contains(id) {
            return Err(EglError::ContextExists);
        }
        if width <= 0 || height <= 0 {
            return Err(EglError::InvalidSize);
        }
        let mut display: EglDisplay = self.display;
        let mut ctx: EglContext = EglContext::create(&mut display, id);
        let owns: bool = ctx.owns_display();
        let bound = ctx.create_surface(&mut display, width, height);
        assert(bound.is_ok());
        let next = self.with_slot(id, Some(ctx), display);
        *self = next;
        Ok(owns)
    }

    /// Destroys the context of a window and returns the native steps to
    /// perform, in order. Where the context of the clock stays, it is the
    /// current one afterwards. Without a context of the window nothing
    /// changes and there is nothing to do.
    pub fn destroy(&mut self, id: WindowId) -> (steps: Vec<TeardownStep>)
        ensures
            final(self).consistent(),
            final(self)@ == old(self)@.remove(id),
            steps@ == destroy_context_steps(old(self)@, old(self).spec_current(), id),
            final(self).spec_current() == current_after_destroy(
                old(self)@,
                old(self).spec_current(),
                id,
            ),
            final(self).spec_current() != Some(id),
            old(self)@.contains_key(id) && id != WindowId::Clock && old(self)@.contains_key(
                WindowId::Clock,
            ) ==> final(self).spec_current() == Some(WindowId::Clock),
            final(self).spec_initialized() == (old(self).spec_initialized() && !old(self).owns(
                id,
            )),
            final(self).spec_owner() == (if old(self).spec_owner() == Some(id) {
                None
            } else {
                old(self).spec_owner()
            }),
    {
        proof {
            use_type_invariant(&*self);
            self.lemma_consistent();
        }
        let ctx: EglContext = match self.get(id) {
            None => {
                return Vec::new();
            },
            Some(ctx) => ctx,
        };
        let mut display: EglDisplay = self.display;
        let mut steps: Vec<TeardownStep> = Vec::new();
        let primary: Option<EglContext> = match id {
            WindowId::Clock => None,
            _ => self.clock,
        };
        if let Some(clock) = primary {
            let primary_current: bool = match display.current() {
                Some(WindowId::Clock) => true,
                _ => false,
            };
            if !primary_current {
                steps.push(TeardownStep::MakeCurrent(WindowId::Clock));
            }
            let bound: bool = clock.make_current(&mut display);
            assert(bound);
        }
        let mut more: Vec<TeardownStep> = ctx.teardown(&mut display);
        steps.append(&mut more);
        let next = self.with_slot(id, None, display);
        proof {
            assert(steps@ =~= destroy_context_steps(self@, self.spec_current(), id));
        }
        *self = next;
        steps
    }

    /// Makes the context of a window the current one. Returns whether the
    /// window has a context; if it has none, nothing changes.
    pub fn make_current(&mut self, id: WindowId) -> (bound: bool)
        ensures
            final(self).consistent(),
            bound == old(self)@.contains_key(id),
            final(self)@ == old(self)@,
            final(self).spec_initialized() == old(self).spec_initialized(),
            final(self).spec_current() == (if bound {
                Some(id)
            } else {
                old(self).spec_current()
            }),
    {
        proof {
            use_type_invariant(&*self);
            self.lemma_consistent();
        }
        match self.get(id) {
            None => false,
            Some(ctx) => {
                let mut display: EglDisplay = self.display;
                let bound: bool = ctx.make_current(&mut display);
                let next = self.with_slot(id, Some(ctx), display);
                proof {
                    assert(next@ =~= self@);
                }
                *self = next;
                bound
            },
        }
    }

    /// Whether the frame of a window may be presented: the window needs a
    /// context, and it has to be the current one.
    pub fn swap_buffers(&self, id: WindowId) -> (res: Result<(), EglError>)
        ensures
            !self@.contains_key(id) ==> res == Err::<(), EglError>(EglError::NoContext),
            self@.contains_key(id) && self.spec_current() != Some(id) ==> res == Err::<
                (),
                EglError,
            >(EglError::NotCurrent),
            self@.contains_key(id) && self.spec_current() == Some(id) ==> res.is_ok(),
    {
        match self.get(id) {
            None => Err(EglError::NoContext),
            Some(ctx) => ctx.swap_buffers(&self.display),
        }
    }

    /// Resizes the drawable of a window in place. The current context
    /// stays. A window without a context, or a size that is not positive,
    /// is refused, and nothing changes.
    pub fn resize(&mut self, id: WindowId, width: i32, height: i32) -> (res: Result<(), EglError>)
        ensures
            final(self).consistent(),
            final(self).spec_display() == old(self).spec_display(),
            !old(self)@.contains_key(id) ==> res == Err::<(), EglError>(EglError::NoContext)
                && final(self)@ == old(self)@,
            old(self)@.contains_key(id) && (width <= 0 || height <= 0) ==> res == Err::<
                (),
                EglError,
            >(EglError::InvalidSize) && final(self)@ == old(self)@,
            old(self)@.contains_key(id) && width > 0 && height > 0 ==> {
                let ctx = final(self)@[id];
                &&& res.is_ok()
                &&& final(self)@ == old(self)@.insert(id, ctx)
                &&& ctx.spec_role() == id
                &&& ctx.spec_owns_display() == old(self)@[id].spec_owns_display()
                &&& ctx.spec_surface_size() == Some([width, height])
            },
    {
        proof {
            use_type_invariant(&*self);
            self.lemma_consistent();
        }
        match self.get(id) {
            None => Err(EglError::NoContext),
            Some(ctx) => {
                if width <= 0 || height <= 0 {
                    return Err(EglError::InvalidSize);
                }
                let mut ctx: EglContext = ctx;
                let resized: bool = ctx.resize(width, height);
                assert(resized);
                let next = self.with_slot(id, Some(ctx), self.display);
                *self = next;
                Ok(())
            },
        }
    }
}

} // verus!
