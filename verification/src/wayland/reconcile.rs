//! Reconciling: the steps that bring the live windows in line with the
//! desired ones.

use vstd::prelude::*;

use super::window_manager::WindowId;

verus! {

/// One step of bringing the live windows in line with the desired ones.
#[derive(Debug, Clone, Copy, PartialEq, Eq, Structural)]
pub enum WindowOp {
    Create(WindowId),
    Destroy(WindowId),
}

/// The destroy step for a role, where a window of it is live and not
/// desired.
pub open spec fn destroy_op(live: Set<WindowId>, desired: Set<WindowId>, id: WindowId) -> Seq<
    WindowOp,
> {
    if live.contains(id) && !desired.contains(id) {
        seq![WindowOp::Destroy(id)]
    } else {
        Seq::<WindowOp>::empty()
    }
}

/// The destroy step for a role other than that of the display owner.
pub open spec fn destroy_other_op(
    live: Set<WindowId>,
    desired: Set<WindowId>,
    owner: Option<WindowId>,
    id: WindowId,
) -> Seq<WindowOp> {
    if owner == Some(id) {
        Seq::<WindowOp>::empty()
    } else {
        destroy_op(live, desired, id)
    }
}

/// The create step for a role, where a window of it is desired and not
/// live.
pub open spec fn create_op(live: Set<WindowId>, desired: Set<WindowId>, id: WindowId) -> Seq<
    WindowOp,
> {
    if desired.contains(id) && !live.contains(id) {
        seq![WindowOp::Create(id)]
    } else {
        Seq::<WindowOp>::empty()
    }
}

/// The steps that bring the live roles in line with the desired ones.
///
/// Every live role that is not desired is destroyed, in the order clock,
/// timer, effect, but the window whose context owns the shared display
/// last. Then every desired role that is not live is created, in the order
/// clock, timer, effect. A role that is both live and desired is left alone.
pub open spec fn reconcile_plan(
    live: Set<WindowId>,
    desired: Set<WindowId>,
    owner: Option<WindowId>,
) -> Seq<WindowOp> {
    destroy_other_op(live, desired, owner, WindowId::Clock) + destroy_other_op(
        live,
        desired,
        owner,
        WindowId::Timer,
    ) + destroy_other_op(live, desired, owner, WindowId::Plasma) + (match owner {
        Some(o) => destroy_op(live, desired, o),
        None => Seq::<WindowOp>::empty(),
    }) + create_op(live, desired, WindowId::Clock) + create_op(live, desired, WindowId::Timer)
        + create_op(live, desired, WindowId::Plasma)
}

/// The roles that are live once the steps of a plan have been performed on
/// the live roles: those created, and those that were live and not
/// destroyed.
pub open spec fn plan_result(live: Set<WindowId>, ops: Seq<WindowOp>) -> Set<WindowId> {
    Set::new(
        |id: WindowId|
            ops.contains(WindowOp::Create(id)) || (live.contains(id) && !ops.contains(
                WindowOp::Destroy(id),
            )),
    )
}

pub(crate) fn push_if(ops: &mut Vec<WindowOp>, wanted: bool, op: WindowOp)
    ensures
        final(ops)@ == old(ops)@ + (if wanted {
            seq![op]
        } else {
            Seq::<WindowOp>::empty()
        }),
{
    if wanted {
        ops.push(op);
        assert(ops@ =~= old(ops)@ + seq![op]);
    } else {
        assert(ops@ =~= old(ops)@ + Seq::<WindowOp>::empty());
    }
}

/// Reconciling twice does nothing the second time: once the live roles are
/// the desired ones, the plan is empty, whoever owns the display.
pub proof fn lemma_reconcile_settled(desired: Set<WindowId>, owner: Option<WindowId>)
    ensures
        reconcile_plan(desired, desired, owner) == Seq::<WindowOp>::empty(),
{
    assert(reconcile_plan(desired, desired, owner) =~= Seq::<WindowOp>::empty());
}

/// Performing a plan leaves exactly the desired roles live.
pub proof fn lemma_reconcile_reaches_desired(
    live: Set<WindowId>,
    desired: Set<WindowId>,
    owner: Option<WindowId>,
)
    ensures
        plan_result(live, reconcile_plan(live, desired, owner)) == desired,
{
    let ops = reconcile_plan(live, desired, owner);
    assert forall|id: WindowId|
        ops.contains(WindowOp::Create(id)) == (desired.contains(id) && !live.contains(
            id,
        )) && ops.contains(WindowOp::Destroy(id)) == (live.contains(id) && !desired.contains(
            id,
        )) by {
        lemma_plan_contains(live, desired, owner, id);
    }
    assert(plan_result(live, ops) =~= desired);
}

/// Reconciling is idempotent: after the steps of a plan have been
/// performed, a second plan for the same desired roles has no step.
pub proof fn lemma_reconcile_idempotent(
    live: Set<WindowId>,
    desired: Set<WindowId>,
    owner: Option<WindowId>,
    owner_after: Option<WindowId>,
)
    ensures
        reconcile_plan(
            plan_result(live, reconcile_plan(live, desired, owner)),
            desired,
            owner_after,
        ).len() == 0,
{
    lemma_reconcile_reaches_desired(live, desired, owner);
    lemma_reconcile_settled(desired, owner_after);
}

/// A plan creates exactly the roles that are desired and not live, and
/// destroys exactly those that are live and not desired.
pub proof fn lemma_plan_contains(
    live: Set<WindowId>,
    desired: Set<WindowId>,
    owner: Option<WindowId>,
    id: WindowId,
)
    ensures
        reconcile_plan(live, desired, owner).contains(WindowOp::Create(id)) == (desired.contains(
            id,
        ) && !live.contains(id)),
        reconcile_plan(live, desired, owner).contains(WindowOp::Destroy(id)) == (live.contains(id)
            && !desired.contains(id)),
{
    let d1 = destroy_other_op(live, desired, owner, WindowId::Clock);
    let d2 = destroy_other_op(live, desired, owner, WindowId::Timer);
    let d3 = destroy_other_op(live, desired, owner, WindowId::Plasma);
    let d4 = match owner {
        Some(o) => destroy_op(live, desired, o),
        None => Seq::<WindowOp>::empty(),
    };
    let c1 = create_op(live, desired, WindowId::Clock);
    let c2 = create_op(live, desired, WindowId::Timer);
    let c3 = create_op(live, desired, WindowId::Plasma);
    let ops = reconcile_plan(live, desired, owner);
    assert(ops == d1 + d2 + d3 + d4 + c1 + c2 + c3);
    let create = WindowOp::Create(id);
    let destroy = WindowOp::Destroy(id);
    lemma_contains_concat(d1, d2, create);
    lemma_contains_concat(d1 + d2, d3, create);
    lemma_contains_concat(d1 + d2 + d3, d4, create);
    lemma_contains_concat(d1 + d2 + d3 + d4, c1, create);
    lemma_contains_concat(d1 + d2 + d3 + d4 + c1, c2, create);
    lemma_contains_concat(d1 + d2 + d3 + d4 + c1 + c2, c3, create);
    lemma_contains_concat(d1, d2, destroy);
    lemma_contains_concat(d1 + d2, d3, destroy);
    lemma_contains_concat(d1 + d2 + d3, d4, destroy);
    lemma_contains_concat(d1 + d2 + d3 + d4, c1, destroy);
    lemma_contains_concat(d1 + d2 + d3 + d4 + c1, c2, destroy);
    lemma_contains_concat(d1 + d2 + d3 + d4 + c1 + c2, c3, destroy);
    lemma_contains_short(d1, create);
    lemma_contains_short(d2, create);
    lemma_contains_short(d3, create);
    lemma_contains_short(d4, create);
    lemma_contains_short(c1, create);
    lemma_contains_short(c2, create);
    lemma_contains_short(c3, create);
    lemma_contains_short(d1, destroy);
    lemma_contains_short(d2, destroy);
    lemma_contains_short(d3, destroy);
    lemma_contains_short(d4, destroy);
    lemma_contains_short(c1, destroy);
    lemma_contains_short(c2, destroy);
    lemma_contains_short(c3, destroy);
}

pub(crate) proof fn lemma_contains_concat<A>(a: Seq<A>, b: Seq<A>, op: A)
    ensures
        (a + b).contains(op) == (a.contains(op) || b.contains(op)),
{
    if a.contains(op) {
        let i = choose|i: int| 0 <= i < a.len() && a[i] == op;
        assert((a + b)[i] == op);
    }
    if b.contains(op) {
        let i = choose|i: int| 0 <= i < b.len() && b[i] == op;
        assert((a + b)[a.len() + i] == op);
    }
    if (a + b).contains(op) {
        let i = choose|i: int| 0 <= i < (a + b).len() && (a + b)[i] == op;
        if i < a.len() {
            assert(a[i] == op);
        } else {
            assert(b[i - a.len()] == op);
        }
    }
}

pub(crate) proof fn lemma_contains_short<A>(a: Seq<A>, op: A)
    requires
        a.len() <= 1,
    ensures
        a.contains(op) == (a.len() == 1 && a[0] == op),
{
    if a.len() == 1 && a[0] == op {
        assert(a.contains(op));
    }
}

} // verus!
