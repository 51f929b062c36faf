use megalith::motion::MoveRequestType;
use megalith::requests::{DragRequest, MoveRequest, ResizeRequest, Territory};
use megalith::resize::{ResizeDirection, ResizeMagnitude};

type Rect4 = (f32, f32, f32, f32);

fn handle() -> ResizeDirection<f32> {
    ResizeDirection::SouthEast { southward_magnitude: ResizeMagnitude::Advancing(3.0), eastward_magnitude: ResizeMagnitude::Unchanged }
}

#[test]
fn territory_getters() {
    let t: Territory<Rect4, u32> = Territory::new((0.0, 0.0, 10.0, 5.0), Some(1), None, Some(3));
    assert_eq!(t.expanse(), (0.0, 0.0, 10.0, 5.0));
    assert_eq!(t.base_node(), Some(1));
    assert_eq!(t.drag_node(), None);
    assert_eq!(t.resize_node(), Some(3));
}

#[test]
fn drag_and_resize_requests() {
    let d: DragRequest<Rect4, (f32, f32)> = DragRequest::new((1.0, 2.0, 3.0, 4.0), (0.5, -0.5));
    assert_eq!(d.proposed_expanse(), (1.0, 2.0, 3.0, 4.0));
    assert_eq!(d.drag_delta(), (0.5, -0.5));
    let r: ResizeRequest<Rect4, f32> = ResizeRequest::new((1.0, 2.0, 3.0, 4.0), handle());
    assert_eq!(r.proposed_expanse(), (1.0, 2.0, 3.0, 4.0));
    assert_eq!(r.resize_direction(), handle());
}

#[test]
fn move_request_kinds_change_and_proposal_stays() {
    let mut m: MoveRequest<Rect4, f32> = MoveRequest::new((0.0, 0.0, 1.0, 1.0), MoveRequestType::Unknown);
    assert_eq!(m.move_type(), MoveRequestType::Unknown);
    m.move_type_drag();
    assert_eq!(m.move_type(), MoveRequestType::Drag);
    m.move_type_resize(handle());
    assert_eq!(m.move_type(), MoveRequestType::Resize(handle()));
    m.move_type_unknown();
    assert_eq!(m.move_type(), MoveRequestType::Unknown);
    assert_eq!(m.proposed_expanse(), (0.0, 0.0, 1.0, 1.0));
}
