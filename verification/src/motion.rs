//! The decisions of the territory motion pipeline. A territory asks to move
//! with a move request; the pipeline finds out what kind of motion it is,
//! keeps it inside the window, settles conflicts with the other territories
//! and applies what survives. The geometry stays with the caller: these
//! functions decide which request survives and which edge of which
//! rectangle moves, in which sense and by which measure.
use vstd::prelude::*;

use crate::resize::ResizeDirection;

verus! {

/// The intended motion of a move request.
#[derive(Clone, Copy, Debug, PartialEq)]
pub enum MoveRequestType<T> {
    /// The display library could not tell; the pipeline finds out.
    Unknown,
    /// The rectangle changes position but not size.
    Drag,
    /// The rectangle changes size through the given handle.
    Resize(ResizeDirection<T>),
}

/// Marks a territory as one of the group that advances during a linked resize.
pub struct AdvancingTerritoryGroup<T>(pub ResizeDirection<T>);

/// Marks a territory as one of the group that retreats during a linked resize.
pub struct RetreatingTerritoryGroup<T>(pub ResizeDirection<T>);

impl<T: Copy> AdvancingTerritoryGroup<T> {
    /// A copy of the group's resize handle.
    pub fn resize_direction(&self) -> (r: ResizeDirection<T>)
        ensures
            r == self.0,
    {
        self.0
    }
}

impl<T: Copy> RetreatingTerritoryGroup<T> {
    /// A copy of the group's resize handle.
    pub fn resize_direction(&self) -> (r: ResizeDirection<T>)
        ensures
            r == self.0,
    {
        self.0
    }
}

/// What the first stage of the pipeline does with a move request.
#[derive(Clone, Copy, Debug, PartialEq, Eq, Structural)]
pub enum EvalDecision {
    /// The request is dropped.
    RemoveRequest,
    /// The request is marked as a drag.
    MarkDrag,
    /// The request is marked as a resize.
    MarkResize,
    /// The request goes on unchanged.
    Keep,
}

/// What the window-edge stage does with a move request.
#[derive(Clone, Copy, Debug, PartialEq, Eq, Structural)]
pub enum FringeAction {
    /// The request is dropped.
    RemoveRequest,
    /// The proposed rectangle is moved back inside the window, keeping its size.
    ShiftInside,
    /// The proposed rectangle is cut down to its part inside the window.
    ClipToWindow,
}

/// What the last stage does with a move request.
#[derive(Clone, Copy, Debug, PartialEq, Eq, Structural)]
pub enum ApplyDecision {
    /// The request is dropped without effect.
    RemoveRequest,
    /// The territory takes the proposed rectangle and the request is dropped.
    ApplyAndRemove,
}

/// Where a conflicting rectangle lies as seen from the rectangle that has to
/// give way, as a quarter of the turn in worldspace (y up) around that
/// rectangle's centre: `Right` around angle 0, `Top` around a quarter turn,
/// `Left` around a half turn, `Down` around three quarters.
#[derive(Clone, Copy, Debug, PartialEq, Eq, Structural, Hash)]
pub enum ConflictSector {
    Right,
    Top,
    Left,
    Down,
}

/// A coordinate of a worldspace rectangle.
#[derive(Clone, Copy, Debug, PartialEq, Eq, Structural, Hash)]
pub enum RectEdge {
    MinX,
    MinY,
    MaxX,
    MaxY,
}

/// The length an edge moves by.
#[derive(Clone, Copy, Debug, PartialEq, Eq, Structural, Hash)]
pub enum Measure {
    /// The width of the conflict rectangle.
    ConflictWidth,
    /// The height of the conflict rectangle.
    ConflictHeight,
    /// How far the conflict reaches past what the other territory can give
    /// up without shrinking below the minimum size.
    Overreach,
}

/// The direction a dragged rectangle is pushed out of a conflict: along x or
/// along y, toward larger or smaller coordinates.
#[derive(Clone, Copy, Debug, PartialEq, Eq, Structural)]
pub struct DragPush {
    pub along_x: bool,
    pub positive: bool,
}

/// One edge of a rectangle moving by a measure, toward larger coordinates
/// when `increase` holds, toward smaller ones otherwise.
#[derive(Clone, Copy, Debug, PartialEq, Eq, Structural)]
pub struct EdgeAdjust {
    pub edge: RectEdge,
    pub by: Measure,
    pub increase: bool,
}

/// The decision of the first stage, for a territory that is locked or not
/// and a request of the given kind that proposes the territory's own
/// rectangle or not, and keeps its size or not.
pub open spec fn spec_eval<T>(
    locked: bool,
    move_type: MoveRequestType<T>,
    same_rect: bool,
    same_size: bool,
) -> EvalDecision {
    if locked {
        EvalDecision::RemoveRequest
    } else {
        match move_type {
            MoveRequestType::Unknown => if same_rect {
                EvalDecision::RemoveRequest
            } else if same_size {
                EvalDecision::MarkDrag
            } else {
                EvalDecision::MarkResize
            },
            _ => EvalDecision::Keep,
        }
    }
}

/// The decision of the window-edge stage for a request of the given kind.
pub open spec fn spec_fringe<T>(move_type: MoveRequestType<T>) -> FringeAction {
    match move_type {
        MoveRequestType::Unknown => FringeAction::RemoveRequest,
        MoveRequestType::Drag => FringeAction::ShiftInside,
        MoveRequestType::Resize(_) => FringeAction::ClipToWindow,
    }
}

/// The decision of the last stage for a request of the given kind.
pub open spec fn spec_apply<T>(move_type: MoveRequestType<T>) -> ApplyDecision {
    match move_type {
        MoveRequestType::Unknown => ApplyDecision::RemoveRequest,
        _ => ApplyDecision::ApplyAndRemove,
    }
}

/// Whether a sector lies along the x axis.
pub open spec fn spec_sector_is_horizontal(sector: ConflictSector) -> bool {
    sector is Right || sector is Left
}

/// How a resize gives way to a conflict: against a locked territory it gives
/// up the whole conflict; otherwise it gives up only the overreach, when
/// there is one.
pub open spec fn spec_pare_back(sector: ConflictSector, locked: bool, overreach_positive: bool) -> Option<EdgeAdjust> {
    let (edge, increase, span) = match sector {
        ConflictSector::Right => (RectEdge::MaxX, false, Measure::ConflictWidth),
        ConflictSector::Top => (RectEdge::MaxY, false, Measure::ConflictHeight),
        ConflictSector::Left => (RectEdge::MinX, true, Measure::ConflictWidth),
        ConflictSector::Down => (RectEdge::MinY, true, Measure::ConflictHeight),
    };
    if locked {
        Some(EdgeAdjust { edge, by: span, increase })
    } else if overreach_positive {
        Some(EdgeAdjust { edge, by: Measure::Overreach, increase })
    } else {
        None
    }
}

/// How a territory in the way of a settled resize, lying in the given sector
/// of the resized one, is pushed back on its edge facing the resize by the
/// conflict's extent along that axis; a locked territory is never moved.
pub open spec fn spec_push_other(sector: ConflictSector, locked: bool) -> Option<EdgeAdjust> {
    if locked {
        None
    } else {
        Some(match sector {
            ConflictSector::Right => EdgeAdjust { edge: RectEdge::MinX, by: Measure::ConflictWidth, increase: true },
            ConflictSector::Top => EdgeAdjust { edge: RectEdge::MinY, by: Measure::ConflictHeight, increase: true },
            ConflictSector::Left => EdgeAdjust { edge: RectEdge::MaxX, by: Measure::ConflictWidth, increase: false },
            ConflictSector::Down => EdgeAdjust { edge: RectEdge::MaxY, by: Measure::ConflictHeight, increase: false },
        })
    }
}

/// The sector on the other side of the centre.
pub open spec fn spec_sector_opposite(sector: ConflictSector) -> ConflictSector {
    match sector {
        ConflictSector::Right => ConflictSector::Left,
        ConflictSector::Top => ConflictSector::Down,
        ConflictSector::Left => ConflictSector::Right,
        ConflictSector::Down => ConflictSector::Top,
    }
}

/// How a dragged rectangle leaves a conflict: along x when the conflict is at
/// least as tall as it is wide, else along y; toward larger coordinates when
/// the dragged rectangle's centre is at or beyond the other territory's
/// centre on that axis.
pub open spec fn spec_drag_push(at_least_as_tall_as_wide: bool, x_at_or_beyond: bool, y_at_or_beyond: bool) -> DragPush {
    DragPush {
        along_x: at_least_as_tall_as_wide,
        positive: if at_least_as_tall_as_wide { x_at_or_beyond } else { y_at_or_beyond },
    }
}

/// How a placeholder's proposed territory gives way to an existing territory
/// lying in the given sector of it: by the whole conflict, on the edge
/// facing the territory.
pub open spec fn spec_placeholder_clip(sector: ConflictSector) -> EdgeAdjust {
    match sector {
        ConflictSector::Right => EdgeAdjust { edge: RectEdge::MaxX, by: Measure::ConflictWidth, increase: false },
        ConflictSector::Top => EdgeAdjust { edge: RectEdge::MaxY, by: Measure::ConflictHeight, increase: false },
        ConflictSector::Left => EdgeAdjust { edge: RectEdge::MinX, by: Measure::ConflictWidth, increase: true },
        ConflictSector::Down => EdgeAdjust { edge: RectEdge::MinY, by: Measure::ConflictHeight, increase: true },
    }
}

/// First stage: a locked territory drops its request; a request of unknown
/// kind is dropped when it proposes the territory's own rectangle, marked a
/// drag when it keeps the size and a resize otherwise; known kinds go on.
pub fn territory_move_eval_type<T: Copy>(
    locked: bool,
    move_type: &MoveRequestType<T>,
    same_rect: bool,
    same_size: bool,
) -> (r: EvalDecision)
    ensures
        r == spec_eval(locked, *move_type, same_rect, same_size),
{
    if locked {
        return EvalDecision::RemoveRequest;
    }
    match move_type {
        MoveRequestType::Unknown => {
            if same_rect {
                EvalDecision::RemoveRequest
            } else if same_size {
                EvalDecision::MarkDrag
            } else {
                EvalDecision::MarkResize
            }
        },
        MoveRequestType::Drag | MoveRequestType::Resize(_) => EvalDecision::Keep,
    }
}

/// Second stage: a request still of unknown kind is dropped, a drag is moved
/// back inside the window and a resize is cut to the window.
pub fn territory_move_process_fringe<T: Copy>(move_type: &MoveRequestType<T>) -> (r: FringeAction)
    ensures
        r == spec_fringe(*move_type),
{
    match move_type {
        MoveRequestType::Unknown => FringeAction::RemoveRequest,
        MoveRequestType::Drag => FringeAction::ShiftInside,
        MoveRequestType::Resize(_) => FringeAction::ClipToWindow,
    }
}

/// Last stage: a request of unknown kind is dropped; any other is applied to
/// the territory, then dropped.
pub fn territory_move_apply_proposed<T: Copy>(move_type: &MoveRequestType<T>) -> (r: ApplyDecision)
    ensures
        r == spec_apply(*move_type),
{
    match move_type {
        MoveRequestType::Unknown => ApplyDecision::RemoveRequest,
        MoveRequestType::Drag | MoveRequestType::Resize(_) => ApplyDecision::ApplyAndRemove,
    }
}

impl ConflictSector {
    /// Whether the sector lies along the x axis, so that its overreach is
    /// measured in widths rather than heights.
    pub fn is_horizontal(&self) -> (r: bool)
        ensures
            r == spec_sector_is_horizontal(*self),
    {
        matches!(self, ConflictSector::Right | ConflictSector::Left)
    }

    /// The sector on the other side of the centre: where a rectangle lies as
    /// seen from the other one.
    pub fn opposite(&self) -> (r: ConflictSector)
        ensures
            r == spec_sector_opposite(*self),
    {
        match self {
            ConflictSector::Right => ConflictSector::Left,
            ConflictSector::Top => ConflictSector::Down,
            ConflictSector::Left => ConflictSector::Right,
            ConflictSector::Down => ConflictSector::Top,
        }
    }
}

/// Conflict stage, drag: after pushing, the request survives only when no
/// conflict remains with any other territory.
pub fn drag_request_survives(remaining_conflicts: &Vec<bool>) -> (r: bool)
    ensures
        r == !remaining_conflicts@.contains(true),
{
    let n = remaining_conflicts.len();
    let mut i: usize = 0;
    while i < n
        invariant
            n == remaining_conflicts@.len(),
            i <= n,
            forall|j: int| 0 <= j < i ==> !#[trigger] remaining_conflicts@[j],
        decreases n - i,
    {
        if remaining_conflicts[i] {
            assert(remaining_conflicts@[i as int]);
            return false;
        }
        i += 1;
    }
    true
}

/// Conflict stage, resize, first pass: how the proposed rectangle gives way
/// to a territory in the given sector.
pub fn resize_pare_back(sector: ConflictSector, locked: bool, overreach_positive: bool) -> (r: Option<EdgeAdjust>)
    ensures
        r == spec_pare_back(sector, locked, overreach_positive),
{
    let (edge, increase, span) = match sector {
        ConflictSector::Right => (RectEdge::MaxX, false, Measure::ConflictWidth),
        ConflictSector::Top => (RectEdge::MaxY, false, Measure::ConflictHeight),
        ConflictSector::Left => (RectEdge::MinX, true, Measure::ConflictWidth),
        ConflictSector::Down => (RectEdge::MinY, true, Measure::ConflictHeight),
    };
    if locked {
        Some(EdgeAdjust { edge, by: span, increase })
    } else if overreach_positive {
        Some(EdgeAdjust { edge, by: Measure::Overreach, increase })
    } else {
        None
    }
}

/// Conflict stage, resize, second pass: how a territory still in the way of
/// the settled resize is pushed back; `None` for a locked territory, which
/// stays where it is.
pub fn resize_push_other(sector: ConflictSector, locked: bool) -> (r: Option<EdgeAdjust>)
    ensures
        r == spec_push_other(sector, locked),
{
    if locked {
        return None;
    }
    Some(match sector {
        ConflictSector::Right => EdgeAdjust { edge: RectEdge::MinX, by: Measure::ConflictWidth, increase: true },
        ConflictSector::Top => EdgeAdjust { edge: RectEdge::MinY, by: Measure::ConflictHeight, increase: true },
        ConflictSector::Left => EdgeAdjust { edge: RectEdge::MaxX, by: Measure::ConflictWidth, increase: false },
        ConflictSector::Down => EdgeAdjust { edge: RectEdge::MaxY, by: Measure::ConflictHeight, increase: false },
    })
}

/// Conflict stage, resize: once the others are pushed back, the request
/// survives only when no conflict remains with any other territory.
pub fn resize_request_survives(remaining_conflicts: &Vec<bool>) -> (r: bool)
    ensures
        r == !remaining_conflicts@.contains(true),
{
    drag_request_survives(remaining_conflicts)
}

/// Conflict stage, drag: the direction a dragged rectangle is pushed out of a
/// conflict with another territory.
pub fn drag_push(at_least_as_tall_as_wide: bool, x_at_or_beyond: bool, y_at_or_beyond: bool) -> (r: DragPush)
    ensures
        r == spec_drag_push(at_least_as_tall_as_wide, x_at_or_beyond, y_at_or_beyond),
{
    if at_least_as_tall_as_wide {
        DragPush { along_x: true, positive: x_at_or_beyond }
    } else {
        DragPush { along_x: false, positive: y_at_or_beyond }
    }
}

/// Placeholder data: how the proposed territory of a territory-spawn
/// placeholder gives way to an existing territory.
pub fn placeholder_clip(sector: ConflictSector) -> (r: EdgeAdjust)
    ensures
        r == spec_placeholder_clip(sector),
{
    match sector {
        ConflictSector::Right => EdgeAdjust { edge: RectEdge::MaxX, by: Measure::ConflictWidth, increase: false },
        ConflictSector::Top => EdgeAdjust { edge: RectEdge::MaxY, by: Measure::ConflictHeight, increase: false },
        ConflictSector::Left => EdgeAdjust { edge: RectEdge::MinX, by: Measure::ConflictWidth, increase: true },
        ConflictSector::Down => EdgeAdjust { edge: RectEdge::MinY, by: Measure::ConflictHeight, increase: true },
    }
}

/// An adjustment that moves a minimum edge up or a maximum edge down: it
/// never grows the rectangle.
pub open spec fn shrinks(a: EdgeAdjust) -> bool {
    if a.edge is MinX || a.edge is MinY { a.increase } else { !a.increase }
}

/// The edge on the other side of the rectangle along the same axis.
pub open spec fn facing_edge(e: RectEdge) -> RectEdge {
    match e {
        RectEdge::MinX => RectEdge::MaxX,
        RectEdge::MaxX => RectEdge::MinX,
        RectEdge::MinY => RectEdge::MaxY,
        RectEdge::MaxY => RectEdge::MinY,
    }
}

/// The measure of the conflict's extent along the axis of a sector.
pub open spec fn span_along(sector: ConflictSector) -> Measure {
    if spec_sector_is_horizontal(sector) { Measure::ConflictWidth } else { Measure::ConflictHeight }
}

/// Settling a resize conflict only ever shrinks rectangles and never moves a
/// locked territory: the resize gives way on its edge toward the conflict,
/// by the whole conflict against a locked territory, and an unlocked
/// territory in the way is pushed back on the facing edge by the conflict's
/// extent along the same axis. A placeholder's proposal gives way exactly as
/// a resize does against a locked territory.
pub proof fn lemma_conflicts_only_shrink(sector: ConflictSector, locked: bool, overreach_positive: bool)
    ensures
        spec_pare_back(sector, locked, overreach_positive) matches Some(a) ==> shrinks(a),
        spec_push_other(sector, true) is None,
        spec_push_other(sector, false) is Some,
        spec_push_other(sector, false) matches Some(p) ==> shrinks(p) && p.by == span_along(sector),
        spec_pare_back(sector, true, overreach_positive) is Some,
        spec_pare_back(sector, true, overreach_positive) matches Some(a) ==> ({
            &&& a.by == span_along(sector)
            &&& spec_push_other(sector, false)->0.edge == facing_edge(a.edge)
        }),
        (locked || overreach_positive) <==> spec_pare_back(sector, locked, overreach_positive) is Some,
        spec_pare_back(sector, locked, overreach_positive) matches Some(a) ==>
            ((a.edge is MinX || a.edge is MaxX) == spec_sector_is_horizontal(sector)),
        Some(spec_placeholder_clip(sector)) == spec_pare_back(sector, true, overreach_positive),
        spec_sector_opposite(spec_sector_opposite(sector)) == sector,
        spec_sector_is_horizontal(spec_sector_opposite(sector)) == spec_sector_is_horizontal(sector),
{
}

/// A dragged rectangle leaves a conflict across the conflict's thinner
/// dimension.
pub proof fn lemma_drag_push_across_thinner_side(tall: bool, x_beyond: bool, y_beyond: bool)
    ensures
        spec_drag_push(tall, x_beyond, y_beyond).along_x == tall,
        tall ==> spec_drag_push(tall, x_beyond, y_beyond).positive == x_beyond,
        !tall ==> spec_drag_push(tall, x_beyond, y_beyond).positive == y_beyond,
{
}

/// A request goes through the pipeline consistently: a locked territory's
/// request is always dropped at once; once marked by the first stage, a
/// request is never dropped as unknown later; an unknown request that
/// reaches a later stage is dropped there without effect.
pub proof fn lemma_pipeline_consistency<T: Copy>(move_type: MoveRequestType<T>, d: ResizeDirection<T>)
    ensures
        spec_fringe(MoveRequestType::<T>::Drag) is ShiftInside,
        spec_fringe(MoveRequestType::Resize(d)) is ClipToWindow,
        spec_apply(MoveRequestType::<T>::Drag) is ApplyAndRemove,
        spec_apply(MoveRequestType::Resize(d)) is ApplyAndRemove,
        (move_type is Unknown) <==> spec_fringe(move_type) is RemoveRequest,
        (move_type is Unknown) <==> spec_apply(move_type) is RemoveRequest,
        !(move_type is Unknown) ==> spec_eval(false, move_type, true, true) is Keep,
        forall|same_rect: bool, same_size: bool| #[trigger] spec_eval(true, move_type, same_rect, same_size)
            is RemoveRequest,
        forall|same_rect: bool, same_size: bool| !(#[trigger] spec_eval(false, MoveRequestType::<T>::Unknown, same_rect, same_size)
            is Keep),
{
}


/// Whether a sector lies toward larger coordinates (right, or up in worldspace).
pub open spec fn sector_is_toward_larger(sector: ConflictSector) -> bool {
    sector is Right || sector is Top
}

/// A resize gives way against every territory on its own edge toward the
/// conflict, the same edge whether the territory is locked or not: a max
/// edge moving down for a conflict toward larger coordinates, a min edge
/// moving up otherwise, on the sector's axis. Against a locked territory it
/// gives up the whole conflict along that axis, whatever the overreach;
/// against an unlocked one it gives up only the overreach, and nothing when
/// there is none.
pub proof fn lemma_pare_back_by_lock(sector: ConflictSector, overreach_positive: bool)
    ensures
        ({
            let locked = spec_pare_back(sector, true, overreach_positive);
            &&& locked is Some
            &&& locked == spec_pare_back(sector, true, !overreach_positive)
            &&& locked->0.by == span_along(sector)
            &&& (locked->0.edge is MaxX || locked->0.edge is MaxY) == sector_is_toward_larger(sector)
            &&& locked->0.increase == !sector_is_toward_larger(sector)
            &&& ((locked->0.edge is MinX || locked->0.edge is MaxX) == spec_sector_is_horizontal(sector))
            &&& spec_pare_back(sector, false, true) == Some(EdgeAdjust {
                edge: locked->0.edge,
                by: Measure::Overreach,
                increase: locked->0.increase,
            })
            &&& spec_pare_back(sector, false, false) is None
        }),
{
}

/// The opposite sector is another sector on the same axis, and taking it
/// twice gives the sector back; it turns toward the other end of the axis.
pub proof fn lemma_sector_opposite_other_end(sector: ConflictSector)
    ensures
        spec_sector_opposite(sector) != sector,
        spec_sector_is_horizontal(spec_sector_opposite(sector)) == spec_sector_is_horizontal(sector),
        sector_is_toward_larger(spec_sector_opposite(sector)) == !sector_is_toward_larger(sector),
        spec_sector_opposite(spec_sector_opposite(sector)) == sector,
{
}

/// A territory's placeholder proposal gives way on the edge facing the
/// territory: the far edge of the rectangle when the territory lies toward
/// larger coordinates, the near one otherwise; and it gives up the whole
/// conflict along the sector's axis.
pub proof fn lemma_placeholder_clip_faces_territory(sector: ConflictSector)
    ensures
        (spec_placeholder_clip(sector).edge is MaxX || spec_placeholder_clip(sector).edge is MaxY)
            == sector_is_toward_larger(sector),
        shrinks(spec_placeholder_clip(sector)),
        spec_placeholder_clip(sector).by == span_along(sector),
        (spec_placeholder_clip(sector).edge is MinX || spec_placeholder_clip(sector).edge is MaxX)
            == spec_sector_is_horizontal(sector),
        spec_placeholder_clip(spec_sector_opposite(sector)).edge == facing_edge(spec_placeholder_clip(sector).edge),
{
}

/// The first stage keeps every request of known kind from an unlocked
/// territory, whatever it proposes; it drops a locked territory's request
/// always; and an unknown request is dropped only when it proposes the
/// territory's own rectangle, marked a drag only when it keeps the size and
/// a resize only when it changes the size.
pub proof fn lemma_eval_known_kinds_kept<T: Copy>(d: ResizeDirection<T>, move_type: MoveRequestType<T>, same_rect: bool, same_size: bool)
    ensures
        spec_eval(false, MoveRequestType::Resize(d), same_rect, same_size) is Keep,
        spec_eval(false, MoveRequestType::<T>::Drag, same_rect, same_size) is Keep,
        spec_eval(true, move_type, same_rect, same_size) is RemoveRequest,
        spec_eval(false, move_type, same_rect, same_size) is Keep <==> !(move_type is Unknown),
        spec_eval(false, MoveRequestType::<T>::Unknown, same_rect, same_size) is RemoveRequest <==> same_rect,
        spec_eval(false, MoveRequestType::<T>::Unknown, same_rect, same_size) is MarkDrag
            <==> (!same_rect && same_size),
        spec_eval(false, MoveRequestType::<T>::Unknown, same_rect, same_size) is MarkResize
            <==> (!same_rect && !same_size),
{
}

} // verus!
