//! Placement: the position that a descriptor resolves to on the screen.

use vstd::prelude::*;

use super::window_manager::{
    AnchorPoint, LayerAnchor, ManagedWindow, PositionConfig, RelativePosition, WindowConfig,
    WindowId,
};

verus! {

/// Half of `d`, rounded toward zero.
pub open spec fn half_toward_zero(d: int) -> int {
    if d >= 0 {
        d / 2
    } else {
        -((-d) / 2)
    }
}

/// The top-left position of a window of `size` attached to `anchor` on a
/// screen of `screen` pixels, as exact integers.
pub open spec fn anchored_position(
    screen: [u32; 2],
    size: [u32; 2],
    anchor: AnchorPoint,
    margin: [i32; 4],
) -> (int, int) {
    match anchor {
        AnchorPoint::TopLeft => (margin[3] as int, margin[0] as int),
        AnchorPoint::TopRight => (screen[0] - size[0] - margin[1], margin[0] as int),
        AnchorPoint::BottomLeft => (margin[3] as int, screen[1] - size[1] - margin[2]),
        AnchorPoint::BottomRight => (
            screen[0] - size[0] - margin[1],
            screen[1] - size[1] - margin[2],
        ),
        AnchorPoint::Center => (
            half_toward_zero(screen[0] - size[0]),
            half_toward_zero(screen[1] - size[1]),
        ),
    }
}

/// The top-left position of a window of `size` placed beside a reference
/// window at `ref_pos` of `ref_size`, as exact integers.
pub open spec fn relative_position(
    ref_pos: [i32; 2],
    ref_size: [u32; 2],
    size: [u32; 2],
    position: RelativePosition,
) -> (int, int) {
    match position {
        RelativePosition::LeftOf { gap } => (ref_pos[0] - size[0] - gap, ref_pos[1] as int),
        RelativePosition::RightOf { gap } => (ref_pos[0] + ref_size[0] + gap, ref_pos[1] as int),
        RelativePosition::Above { gap } => (ref_pos[0] as int, ref_pos[1] - size[1] - gap),
        RelativePosition::Below { gap } => (ref_pos[0] as int, ref_pos[1] + ref_size[1] + gap),
    }
}

/// Whether `v` can be stored in an `i32`.
pub open spec fn fits_i32(v: int) -> bool {
    i32::MIN <= v <= i32::MAX
}

pub(crate) fn half(d: i64) -> (h: i64)
    requires
        i64::MIN < d,
    ensures
        h == half_toward_zero(d as int),
{
    if d >= 0 {
        d / 2
    } else {
        -((-d) / 2)
    }
}

/// The edges that a corner is made of. The centre is attached to no edge.
pub open spec fn anchor_edges(anchor: AnchorPoint) -> LayerAnchor {
    match anchor {
        AnchorPoint::TopLeft => LayerAnchor { top: true, right: false, bottom: false, left: true },
        AnchorPoint::TopRight => LayerAnchor { top: true, right: true, bottom: false, left: false },
        AnchorPoint::BottomLeft => LayerAnchor {
            top: false,
            right: false,
            bottom: true,
            left: true,
        },
        AnchorPoint::BottomRight => LayerAnchor {
            top: false,
            right: true,
            bottom: true,
            left: false,
        },
        AnchorPoint::Center => LayerAnchor {
            top: false,
            right: false,
            bottom: false,
            left: false,
        },
    }
}

/// Whether a size can be that of a drawable: positive and within 31 bits.
pub open spec fn valid_size(size: [u32; 2]) -> bool {
    0 < size[0] <= i32::MAX && 0 < size[1] <= i32::MAX
}

pub(crate) fn anchored(
    screen: [u32; 2],
    size: [u32; 2],
    anchor: AnchorPoint,
    margin: [i32; 4],
) -> (pos: [i64; 2])
    ensures
        pos[0] == anchored_position(screen, size, anchor, margin).0,
        pos[1] == anchored_position(screen, size, anchor, margin).1,
{
    let sx: i64 = screen[0] as i64;
    let sy: i64 = screen[1] as i64;
    let wx: i64 = size[0] as i64;
    let wy: i64 = size[1] as i64;
    match anchor {
        AnchorPoint::TopLeft => [margin[3] as i64, margin[0] as i64],
        AnchorPoint::TopRight => [sx - wx - margin[1] as i64, margin[0] as i64],
        AnchorPoint::BottomLeft => [margin[3] as i64, sy - wy - margin[2] as i64],
        AnchorPoint::BottomRight => [sx - wx - margin[1] as i64, sy - wy - margin[2] as i64],
        AnchorPoint::Center => [half(sx - wx), half(sy - wy)],
    }
}

pub(crate) fn relative(
    ref_pos: [i32; 2],
    ref_size: [u32; 2],
    size: [u32; 2],
    position: RelativePosition,
) -> (pos: [i64; 2])
    ensures
        pos[0] == relative_position(ref_pos, ref_size, size, position).0,
        pos[1] == relative_position(ref_pos, ref_size, size, position).1,
{
    let px: i64 = ref_pos[0] as i64;
    let py: i64 = ref_pos[1] as i64;
    match position {
        RelativePosition::LeftOf { gap } => [px - size[0] as i64 - gap as i64, py],
        RelativePosition::RightOf { gap } => [px + ref_size[0] as i64 + gap as i64, py],
        RelativePosition::Above { gap } => [px, py - size[1] as i64 - gap as i64],
        RelativePosition::Below { gap } => [px, py + ref_size[1] as i64 + gap as i64],
    }
}

/// The exact top-left position that a descriptor resolves to.
///
/// An anchored window is placed from the screen size, its own size, the
/// corner and the margins. A window beside another one is placed from the
/// resolved position and the size of that one, or at the origin while no
/// window of that role is live. An absolute position stands as it is.
pub open spec fn resolve(
    windows: Map<WindowId, ManagedWindow>,
    screen: [u32; 2],
    config: &WindowConfig,
) -> (int, int) {
    match config.position {
        PositionConfig::Anchored { anchor, margin } => anchored_position(
            screen,
            config.size,
            anchor,
            margin,
        ),
        PositionConfig::RelativeTo { window, position } => if windows.contains_key(window) {
            relative_position(
                windows[window].actual_position,
                windows[window].config.size,
                config.size,
                position,
            )
        } else {
            (0, 0)
        },
        PositionConfig::Absolute { x, y } => (x as int, y as int),
    }
}

/// The margin of a corner along the horizontal axis: left for a left
/// corner, right for a right one.
pub open spec fn corner_margin_x(anchor: AnchorPoint, margin: [i32; 4]) -> int {
    match anchor {
        AnchorPoint::TopLeft | AnchorPoint::BottomLeft => margin[3] as int,
        _ => margin[1] as int,
    }
}

/// The margin of a corner along the vertical axis: top for a top corner,
/// bottom for a bottom one.
pub open spec fn corner_margin_y(anchor: AnchorPoint, margin: [i32; 4]) -> int {
    match anchor {
        AnchorPoint::TopLeft | AnchorPoint::TopRight => margin[0] as int,
        _ => margin[2] as int,
    }
}

/// A window anchored to a corner keeps its margins from the two edges of
/// that corner. Where the margins are not negative and the screen has room
/// for the window and its margins, the window lies within the screen.
pub proof fn lemma_anchored_within_screen(
    screen: [u32; 2],
    size: [u32; 2],
    anchor: AnchorPoint,
    margin: [i32; 4],
)
    requires
        anchor != AnchorPoint::Center,
    ensures
        ({
            let (x, y) = anchored_position(screen, size, anchor, margin);
            let mx = corner_margin_x(anchor, margin);
            let my = corner_margin_y(anchor, margin);
            &&& anchor_edges(anchor).left ==> x == mx
            &&& anchor_edges(anchor).right ==> screen[0] - (x + size[0]) == mx
            &&& anchor_edges(anchor).top ==> y == my
            &&& anchor_edges(anchor).bottom ==> screen[1] - (y + size[1]) == my
            &&& mx >= 0 && screen[0] >= size[0] + mx ==> 0 <= x && x + size[0] <= screen[0]
            &&& my >= 0 && screen[1] >= size[1] + my ==> 0 <= y && y + size[1] <= screen[1]
        }),
{
}

/// The registry after the position of the window of one role has been
/// resolved anew against it. A window that is not live, or whose position
/// does not fit in 32 bits, stays as it is.
pub open spec fn settle(windows: Map<WindowId, ManagedWindow>, screen: [u32; 2], id: WindowId)
    -> Map<WindowId, ManagedWindow> {
    if windows.contains_key(id) {
        let p = resolve(windows, screen, &windows[id].config);
        if fits_i32(p.0) && fits_i32(p.1) {
            windows.insert(
                id,
                ManagedWindow { actual_position: [p.0 as i32, p.1 as i32], ..windows[id] },
            )
        } else {
            windows
        }
    } else {
        windows
    }
}

/// The registry after the positions of all windows have been resolved
/// anew, one after the other: clock, timer, effect.
pub open spec fn settle_all(windows: Map<WindowId, ManagedWindow>, screen: [u32; 2]) -> Map<
    WindowId,
    ManagedWindow,
> {
    settle(settle(settle(windows, screen, WindowId::Clock), screen, WindowId::Timer), screen,
        WindowId::Plasma)
}

/// Whether the window of a role is at another position in `after` than in
/// `before`.
pub open spec fn moved(
    before: Map<WindowId, ManagedWindow>,
    after: Map<WindowId, ManagedWindow>,
    id: WindowId,
) -> bool {
    &&& before.contains_key(id)
    &&& after.contains_key(id)
    &&& (before[id].actual_position[0] != after[id].actual_position[0]
        || before[id].actual_position[1] != after[id].actual_position[1])
}

/// The role, if the window of it has moved.
pub open spec fn moved_role(
    before: Map<WindowId, ManagedWindow>,
    after: Map<WindowId, ManagedWindow>,
    id: WindowId,
) -> Seq<WindowId> {
    if moved(before, after, id) {
        seq![id]
    } else {
        Seq::<WindowId>::empty()
    }
}

} // verus!
