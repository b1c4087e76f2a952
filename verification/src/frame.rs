//! The order in which the windows of one frame are drawn.
//!
//! Only one rendering context is current at a time, and a drawing step
//! reaches the window whose context is current. So every window is drawn
//! in one run of its own: its context is made current, the frame begins
//! with the size of its drawable, the content is drawn and the frame is
//! presented. After every window but the clock, the context of the clock
//! is made current again.

use vstd::prelude::*;

use crate::app::{desired_roles, is_clock_config, is_plasma_config, is_timer_config, App};
use crate::wayland::egl::EglContext;
use crate::wayland::reconcile::{reconcile_plan, WindowOp};
use crate::wayland::role_map::RoleMap;
use crate::wayland::window_manager::{WindowConfig, WindowId, WindowManager};

verus! {

/// One step of drawing a frame.
#[derive(Debug, Clone, Copy)]
pub enum FrameStep {
    /// Make the context of this window current.
    MakeCurrent(WindowId),
    /// Clear the target and set the viewport to this size.
    Begin { id: WindowId, viewport: [i32; 2] },
    /// Draw the content of this window.
    Draw(WindowId),
    /// Present the frame of this window.
    Swap(WindowId),
}

/// The current context after a step.
pub open spec fn current_after(current: Option<WindowId>, step: FrameStep) -> Option<WindowId> {
    match step {
        FrameStep::MakeCurrent(id) => Some(id),
        _ => current,
    }
}

/// Whether a step may be taken while `current` is the current context:
/// a step that draws needs the context of its own window.
pub open spec fn step_allowed(current: Option<WindowId>, step: FrameStep) -> bool {
    match step {
        FrameStep::MakeCurrent(_) => true,
        FrameStep::Begin { id, .. } => current == Some(id),
        FrameStep::Draw(id) => current == Some(id),
        FrameStep::Swap(id) => current == Some(id),
    }
}

/// The current context after all of `steps`, taken from `start`.
pub open spec fn run(steps: Seq<FrameStep>, start: Option<WindowId>) -> Option<WindowId>
    decreases steps.len(),
{
    if steps.len() == 0 {
        start
    } else {
        current_after(run(steps.drop_last(), start), steps.last())
    }
}

/// Whether every one of `steps`, taken in order from `start`, is allowed
/// at its turn.
pub open spec fn all_allowed(steps: Seq<FrameStep>, start: Option<WindowId>) -> bool
    decreases steps.len(),
{
    if steps.len() == 0 {
        true
    } else {
        all_allowed(steps.drop_last(), start) && step_allowed(
            run(steps.drop_last(), start),
            steps.last(),
        )
    }
}

/// The steps that draw one window, if it has a context: make its context
/// current, begin with the size of its drawable, draw, present.
pub open spec fn window_pass(contexts: Map<WindowId, EglContext>, id: WindowId) -> Seq<
    FrameStep,
> {
    if contexts.contains_key(id) && contexts[id].spec_surface_size().is_some() {
        seq![
            FrameStep::MakeCurrent(id),
            FrameStep::Begin { id, viewport: contexts[id].spec_surface_size().unwrap() },
            FrameStep::Draw(id),
            FrameStep::Swap(id),
        ]
    } else {
        Seq::<FrameStep>::empty()
    }
}

/// The step that makes the context of the clock current again after a
/// window other than the clock has been drawn, if both are live.
pub open spec fn restore_primary(contexts: Map<WindowId, EglContext>, id: WindowId) -> Seq<
    FrameStep,
> {
    if window_pass(contexts, id).len() > 0 && window_pass(contexts, WindowId::Clock).len() > 0 {
        seq![FrameStep::MakeCurrent(WindowId::Clock)]
    } else {
        Seq::<FrameStep>::empty()
    }
}

/// The steps of one frame: the clock first, then the timer and the
/// effect, each followed by the return to the context of the clock.
pub open spec fn frame_steps(contexts: Map<WindowId, EglContext>) -> Seq<FrameStep> {
    window_pass(contexts, WindowId::Clock) + window_pass(contexts, WindowId::Timer)
        + restore_primary(contexts, WindowId::Timer) + window_pass(contexts, WindowId::Plasma)
        + restore_primary(contexts, WindowId::Plasma)
}

proof fn lemma_run_concat(a: Seq<FrameStep>, b: Seq<FrameStep>, start: Option<WindowId>)
    ensures
        run(a + b, start) == run(b, run(a, start)),
        all_allowed(a + b, start) == (all_allowed(a, start) && all_allowed(b, run(a, start))),
    decreases b.len(),
{
    if b.len() == 0 {
        assert(a + b =~= a);
    } else {
        assert((a + b).drop_last() =~= a + b.drop_last());
        assert((a + b).last() == b.last());
        lemma_run_concat(a, b.drop_last(), start);
    }
}

proof fn lemma_run_pass(contexts: Map<WindowId, EglContext>, id: WindowId, start: Option<WindowId>)
    ensures
        all_allowed(window_pass(contexts, id), start),
        run(window_pass(contexts, id), start) == (if window_pass(contexts, id).len() > 0 {
            Some(id)
        } else {
            start
        }),
{
    let pass = window_pass(contexts, id);
    if pass.len() > 0 {
        let three = pass.drop_last();
        let two = three.drop_last();
        let one = two.drop_last();
        let none = one.drop_last();
        assert(none.len() == 0);
        assert(all_allowed(none, start));
        assert(run(one, start) == Some(id));
        assert(run(two, start) == Some(id));
        assert(run(three, start) == Some(id));
        assert(all_allowed(one, start));
        assert(all_allowed(two, start));
        assert(all_allowed(three, start));
    }
}

proof fn lemma_run_restore(
    contexts: Map<WindowId, EglContext>,
    id: WindowId,
    start: Option<WindowId>,
)
    ensures
        all_allowed(restore_primary(contexts, id), start),
        run(restore_primary(contexts, id), start) == (if restore_primary(contexts, id).len() > 0 {
            Some(WindowId::Clock)
        } else {
            start
        }),
{
    let r = restore_primary(contexts, id);
    if r.len() > 0 {
        assert(r.drop_last().len() == 0);
        assert(all_allowed(r.drop_last(), start));
    }
}

/// In a frame every step that draws is taken while the context of its own
/// window is current, whichever context was current before the frame. And
/// where the clock is drawn, its context is the current one after the
/// frame.
pub proof fn lemma_frame_draws_under_own_context(
    contexts: Map<WindowId, EglContext>,
    start: Option<WindowId>,
)
    ensures
        all_allowed(frame_steps(contexts), start),
        window_pass(contexts, WindowId::Clock).len() > 0 ==> run(frame_steps(contexts), start)
            == Some(WindowId::Clock),
{
    let a = window_pass(contexts, WindowId::Clock);
    let b = window_pass(contexts, WindowId::Timer);
    let c = restore_primary(contexts, WindowId::Timer);
    let d = window_pass(contexts, WindowId::Plasma);
    let e = restore_primary(contexts, WindowId::Plasma);
    lemma_run_pass(contexts, WindowId::Clock, start);
    let s1 = run(a, start);
    lemma_run_pass(contexts, WindowId::Timer, s1);
    lemma_run_concat(a, b, start);
    let s2 = run(a + b, start);
    lemma_run_restore(contexts, WindowId::Timer, s2);
    lemma_run_concat(a + b, c, start);
    let s3 = run(a + b + c, start);
    lemma_run_pass(contexts, WindowId::Plasma, s3);
    lemma_run_concat(a + b + c, d, start);
    let s4 = run(a + b + c + d, start);
    lemma_run_restore(contexts, WindowId::Plasma, s4);
    lemma_run_concat(a + b + c + d, e, start);
}

fn push_pass(steps: &mut Vec<FrameStep>, manager: &WindowManager, id: WindowId) -> (drawn: bool)
    ensures
        final(steps)@ == old(steps)@ + window_pass(manager.spec_contexts()@, id),
        drawn == (window_pass(manager.spec_contexts()@, id).len() > 0),
{
    if let Some(context) = manager.contexts().get(id) {
        if let Some(viewport) = context.surface_size() {
            steps.push(FrameStep::MakeCurrent(id));
            steps.push(FrameStep::Begin { id, viewport });
            steps.push(FrameStep::Draw(id));
            steps.push(FrameStep::Swap(id));
            assert(steps@ =~= old(steps)@ + window_pass(manager.spec_contexts()@, id));
            return true;
        }
    }
    assert(steps@ =~= old(steps)@ + window_pass(manager.spec_contexts()@, id));
    false
}

/// Plans the steps that draw one frame of the live windows.
pub fn frame_plan(manager: &WindowManager) -> (steps: Vec<FrameStep>)
    ensures
        steps@ == frame_steps(manager.spec_contexts()@),
{
    let mut steps: Vec<FrameStep> = Vec::new();
    let primary: bool = push_pass(&mut steps, manager, WindowId::Clock);
    let timer: bool = push_pass(&mut steps, manager, WindowId::Timer);
    if timer && primary {
        steps.push(FrameStep::MakeCurrent(WindowId::Clock));
    }
    assert(steps@ =~= window_pass(manager.spec_contexts()@, WindowId::Clock) + window_pass(
        manager.spec_contexts()@,
        WindowId::Timer,
    ) + restore_primary(manager.spec_contexts()@, WindowId::Timer));
    let plasma: bool = push_pass(&mut steps, manager, WindowId::Plasma);
    if plasma && primary {
        steps.push(FrameStep::MakeCurrent(WindowId::Clock));
    }
    assert(steps@ =~= frame_steps(manager.spec_contexts()@));
    steps
}

/// Asks the application which windows it wants in its current mode, and
/// plans the steps that bring the live windows in line with them. Returns
/// the descriptors of the desired windows and the steps.
pub fn plan_windows(app: &App, manager: &WindowManager) -> (plan: (
    RoleMap<WindowConfig>,
    Vec<WindowOp>,
))
    ensures
        plan.0@.dom() == desired_roles(app.pomodoro@.mode),
        is_clock_config(plan.0@[WindowId::Clock], app.show_seconds),
        plan.0@.contains_key(WindowId::Timer) ==> is_timer_config(plan.0@[WindowId::Timer]),
        plan.0@.contains_key(WindowId::Plasma) ==> is_plasma_config(
            plan.0@[WindowId::Plasma],
            app.layout_screen(),
        ),
        plan.1@ == reconcile_plan(
            manager@.dom(),
            desired_roles(app.pomodoro@.mode),
            manager.spec_owner(),
        ),
{
    let desired: RoleMap<WindowConfig> = app.desired_windows();
    let ops: Vec<WindowOp> = manager.reconcile(&desired);
    (desired, ops)
}

} // verus!
