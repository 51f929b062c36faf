use megalith::motion::{
    drag_push, drag_request_survives, resize_request_survives, DragPush, placeholder_clip, resize_pare_back, resize_push_other, territory_move_apply_proposed,
    territory_move_eval_type, territory_move_process_fringe, AdvancingTerritoryGroup, ApplyDecision,
    ConflictSector, EdgeAdjust, EvalDecision, FringeAction, Measure, MoveRequestType, RectEdge,
    RetreatingTerritoryGroup,
};
use megalith::resize::{ResizeDirection, ResizeMagnitude};

type Move = MoveRequestType<f32>;

fn west() -> ResizeDirection<f32> {
    ResizeDirection::West { westward_magnitude: ResizeMagnitude::Advancing(2.0) }
}

#[test]
fn eval_type_decisions() {
    assert_eq!(territory_move_eval_type(true, &Move::Drag, false, false), EvalDecision::RemoveRequest);
    assert_eq!(territory_move_eval_type(false, &Move::Unknown, true, true), EvalDecision::RemoveRequest);
    assert_eq!(territory_move_eval_type(false, &Move::Unknown, false, true), EvalDecision::MarkDrag);
    assert_eq!(territory_move_eval_type(false, &Move::Unknown, false, false), EvalDecision::MarkResize);
    assert_eq!(territory_move_eval_type(false, &Move::Drag, false, false), EvalDecision::Keep);
    assert_eq!(territory_move_eval_type(false, &Move::Resize(west()), true, true), EvalDecision::Keep);
}

#[test]
fn fringe_and_apply_decisions() {
    assert_eq!(territory_move_process_fringe(&Move::Unknown), FringeAction::RemoveRequest);
    assert_eq!(territory_move_process_fringe(&Move::Drag), FringeAction::ShiftInside);
    assert_eq!(territory_move_process_fringe(&Move::Resize(west())), FringeAction::ClipToWindow);
    assert_eq!(territory_move_apply_proposed(&Move::Unknown), ApplyDecision::RemoveRequest);
    assert_eq!(territory_move_apply_proposed(&Move::Drag), ApplyDecision::ApplyAndRemove);
    assert_eq!(territory_move_apply_proposed(&Move::Resize(west())), ApplyDecision::ApplyAndRemove);
}

#[test]
fn drag_survives_only_without_conflicts() {
    assert!(drag_request_survives(&vec![]));
    assert!(drag_request_survives(&vec![false, false]));
    assert!(!drag_request_survives(&vec![false, true, false]));
}

#[test]
fn resize_gives_way_then_pushes() {
    assert_eq!(
        resize_pare_back(ConflictSector::Right, true, false),
        Some(EdgeAdjust { edge: RectEdge::MaxX, by: Measure::ConflictWidth, increase: false })
    );
    assert_eq!(
        resize_pare_back(ConflictSector::Top, false, true),
        Some(EdgeAdjust { edge: RectEdge::MaxY, by: Measure::Overreach, increase: false })
    );
    assert_eq!(resize_pare_back(ConflictSector::Left, false, false), None);
    assert_eq!(
        resize_pare_back(ConflictSector::Down, true, true),
        Some(EdgeAdjust { edge: RectEdge::MinY, by: Measure::ConflictHeight, increase: true })
    );
    assert_eq!(
        resize_push_other(ConflictSector::Right, false),
        Some(EdgeAdjust { edge: RectEdge::MinX, by: Measure::ConflictWidth, increase: true })
    );
    assert_eq!(
        resize_push_other(ConflictSector::Left, false),
        Some(EdgeAdjust { edge: RectEdge::MaxX, by: Measure::ConflictWidth, increase: false })
    );
    assert_eq!(
        resize_push_other(ConflictSector::Down, false),
        Some(EdgeAdjust { edge: RectEdge::MaxY, by: Measure::ConflictHeight, increase: false })
    );
    for sector in [ConflictSector::Right, ConflictSector::Top, ConflictSector::Left, ConflictSector::Down] {
        assert_eq!(resize_push_other(sector, true), None);
        assert_eq!(sector.opposite().opposite(), sector);
        assert_eq!(Some(placeholder_clip(sector)), resize_pare_back(sector, true, false));
    }
    assert_eq!(ConflictSector::Top.opposite(), ConflictSector::Down);
    assert!(ConflictSector::Left.is_horizontal());
    assert!(!ConflictSector::Down.is_horizontal());
}

#[test]
fn placeholder_gives_way() {
    assert_eq!(
        placeholder_clip(ConflictSector::Left),
        EdgeAdjust { edge: RectEdge::MinX, by: Measure::ConflictWidth, increase: true }
    );
    assert_eq!(
        placeholder_clip(ConflictSector::Top),
        EdgeAdjust { edge: RectEdge::MaxY, by: Measure::ConflictHeight, increase: false }
    );
}

#[test]
fn resize_survives_only_without_conflicts() {
    assert!(resize_request_survives(&vec![]));
    assert!(resize_request_survives(&vec![false]));
    assert!(!resize_request_survives(&vec![true, false]));
}

#[test]
fn drag_pushes_across_the_thinner_side() {
    assert_eq!(drag_push(true, true, false), DragPush { along_x: true, positive: true });
    assert_eq!(drag_push(true, false, true), DragPush { along_x: true, positive: false });
    assert_eq!(drag_push(false, true, false), DragPush { along_x: false, positive: false });
    assert_eq!(drag_push(false, false, true), DragPush { along_x: false, positive: true });
}

#[test]
fn group_handles() {
    assert_eq!(AdvancingTerritoryGroup(west()).resize_direction(), west());
    assert_eq!(RetreatingTerritoryGroup(west().get_opposite()).resize_direction(), west().get_opposite());
}
