use megalith::drag::{
    custom_update_drag_progress, custom_update_drag_state, CustomDragSource, CustomDragState, DragProgress,
    DragStateUpdate, FluxInteraction,
};

use CustomDragState::{DragCanceled, DragEnd, DragStart, Dragging, Inactive, MaybeDragged};

#[test]
fn full_drag_life_cycle() {
    let s1 = custom_update_drag_state(Inactive, FluxInteraction::Pressed);
    assert_eq!(s1, DragStateUpdate { state: MaybeDragged, begin: true, clear: false });
    let s2 = custom_update_drag_progress(s1.state, FluxInteraction::Pressed, false, true);
    assert_eq!(s2, DragProgress { state: DragStart, clear: false, track: true });
    let s3 = custom_update_drag_progress(s2.state, FluxInteraction::Pressed, false, true);
    assert_eq!(s3, DragProgress { state: Dragging, clear: false, track: true });
    let s4 = custom_update_drag_state(s3.state, FluxInteraction::Released);
    assert_eq!(s4, DragStateUpdate { state: DragEnd, begin: false, clear: false });
    let s5 = custom_update_drag_progress(s4.state, FluxInteraction::Released, false, false);
    assert_eq!(s5, DragProgress { state: Inactive, clear: true, track: false });
}

#[test]
fn drag_start_lasts_one_frame() {
    let p = custom_update_drag_progress(DragStart, FluxInteraction::Pressed, false, false);
    assert_eq!(p, DragProgress { state: Dragging, clear: false, track: false });
}

#[test]
fn escape_cancels_a_drag() {
    for s in [DragStart, Dragging] {
        let p = custom_update_drag_progress(s, FluxInteraction::Pressed, true, true);
        assert_eq!(p, DragProgress { state: DragCanceled, clear: true, track: false });
    }
    let p = custom_update_drag_progress(MaybeDragged, FluxInteraction::Pressed, true, false);
    assert_eq!(p, DragProgress { state: MaybeDragged, clear: false, track: false });
    let p = custom_update_drag_progress(DragCanceled, FluxInteraction::Pressed, false, true);
    assert_eq!(p, DragProgress { state: Inactive, clear: false, track: false });
}

#[test]
fn release_abandons_a_pending_drag() {
    let u = custom_update_drag_state(MaybeDragged, FluxInteraction::PressCanceled);
    assert_eq!(u, DragStateUpdate { state: Inactive, begin: false, clear: true });
    let u = custom_update_drag_state(MaybeDragged, FluxInteraction::Pressed);
    assert_eq!(u, DragStateUpdate { state: MaybeDragged, begin: false, clear: false });
    let u = custom_update_drag_state(Dragging, FluxInteraction::PointerLeave);
    assert_eq!(u, DragStateUpdate { state: Dragging, begin: false, clear: false });
}

#[test]
fn unpressed_progress_changes_nothing() {
    let p = custom_update_drag_progress(Dragging, FluxInteraction::Idle, false, true);
    assert_eq!(p, DragProgress { state: Dragging, clear: false, track: false });
    assert_eq!(CustomDragState::default(), Inactive);
    assert_eq!(CustomDragSource::default(), CustomDragSource::Mouse);
}
