//! The drag interaction state machine of a draggable node: it starts when
//! the node is pressed, becomes a drag once the pointer moves, and ends on
//! release or is canceled by the escape key.
use vstd::prelude::*;

verus! {

/// Where a drag is in its life.
#[derive(Clone, Copy, Debug, PartialEq, Eq, Structural, Hash, Default)]
pub enum CustomDragState {
    #[default]
    Inactive,
    MaybeDragged,
    DragStart,
    Dragging,
    DragEnd,
    DragCanceled,
}

/// What drives a drag: the mouse, or the touch with the given id.
#[derive(Clone, Copy, Debug, PartialEq, Eq, Structural, Hash, Default)]
pub enum CustomDragSource {
    #[default]
    Mouse,
    Touch(u64),
}

/// The pointer interaction reported for the node.
#[derive(Clone, Copy, Debug, PartialEq, Eq, Structural, Hash)]
pub enum FluxInteraction {
    Idle,
    PointerEnter,
    PointerLeave,
    Pressed,
    Released,
    PressCanceled,
    Disabled,
}

/// The outcome of one frame of drag progress: the new state, whether the
/// recorded positions are cleared, and whether the new pointer position is
/// recorded with its difference from the last one.
#[derive(Clone, Copy, Debug, PartialEq, Eq, Structural)]
pub struct DragProgress {
    pub state: CustomDragState,
    pub clear: bool,
    pub track: bool,
}

/// The outcome of a change of the pointer interaction: the new state, whether
/// a drag begins (recording its source and the pointer position), and
/// whether the recorded positions are cleared.
#[derive(Clone, Copy, Debug, PartialEq, Eq, Structural)]
pub struct DragStateUpdate {
    pub state: CustomDragState,
    pub begin: bool,
    pub clear: bool,
}

/// A drag has started or is under way.
pub open spec fn is_dragging(s: CustomDragState) -> bool {
    s is DragStart || s is Dragging
}

/// One frame of drag progress. `moved` tells whether both the last recorded
/// and the current pointer positions are known and differ.
pub open spec fn spec_progress(
    state: CustomDragState,
    flux: FluxInteraction,
    escape_just_pressed: bool,
    moved: bool,
) -> DragProgress {
    if state is DragEnd {
        DragProgress { state: CustomDragState::Inactive, clear: true, track: false }
    } else if state is DragCanceled {
        DragProgress { state: CustomDragState::Inactive, clear: false, track: false }
    } else if flux is Pressed && (state is MaybeDragged || is_dragging(state)) {
        if is_dragging(state) && escape_just_pressed {
            DragProgress { state: CustomDragState::DragCanceled, clear: true, track: false }
        } else {
            let s1 = if state is DragStart { CustomDragState::Dragging } else { state };
            if moved {
                let s2 = if s1 is MaybeDragged { CustomDragState::DragStart } else { s1 };
                DragProgress { state: s2, clear: false, track: true }
            } else {
                DragProgress { state: s1, clear: false, track: false }
            }
        }
    } else {
        DragProgress { state, clear: false, track: false }
    }
}

/// A change of the pointer interaction.
pub open spec fn spec_state_change(state: CustomDragState, flux: FluxInteraction) -> DragStateUpdate {
    if flux is Pressed && !(state is MaybeDragged) {
        DragStateUpdate { state: CustomDragState::MaybeDragged, begin: true, clear: false }
    } else if flux is Released || flux is PressCanceled {
        if is_dragging(state) {
            DragStateUpdate { state: CustomDragState::DragEnd, begin: false, clear: false }
        } else if state is MaybeDragged {
            DragStateUpdate { state: CustomDragState::Inactive, begin: false, clear: true }
        } else {
            DragStateUpdate { state, begin: false, clear: false }
        }
    } else {
        DragStateUpdate { state, begin: false, clear: false }
    }
}

/// Advances a drag by one frame: an ended drag goes inactive and forgets its
/// positions, a canceled one goes inactive; while pressed, escape cancels a
/// drag under way, a drag start becomes dragging, and pointer motion turns a
/// possible drag into a drag start and is recorded.
pub fn custom_update_drag_progress(
    state: CustomDragState,
    flux: FluxInteraction,
    escape_just_pressed: bool,
    moved: bool,
) -> (r: DragProgress)
    ensures
        r == spec_progress(state, flux, escape_just_pressed, moved),
{
    let pressed = matches!(flux, FluxInteraction::Pressed);
    let under_way = matches!(state, CustomDragState::DragStart | CustomDragState::Dragging);
    match state {
        CustomDragState::DragEnd => DragProgress { state: CustomDragState::Inactive, clear: true, track: false },
        CustomDragState::DragCanceled => DragProgress { state: CustomDragState::Inactive, clear: false, track: false },
        _ => {
            if pressed && (under_way || matches!(state, CustomDragState::MaybeDragged)) {
                if under_way && escape_just_pressed {
                    return DragProgress { state: CustomDragState::DragCanceled, clear: true, track: false };
                }
                let mut next = state;
                if matches!(next, CustomDragState::DragStart) {
                    next = CustomDragState::Dragging;
                }
                if moved {
                    if matches!(next, CustomDragState::MaybeDragged) {
                        next = CustomDragState::DragStart;
                    }
                    DragProgress { state: next, clear: false, track: true }
                } else {
                    DragProgress { state: next, clear: false, track: false }
                }
            } else {
                DragProgress { state, clear: false, track: false }
            }
        },
    }
}

/// Reacts to a change of the pointer interaction: a press begins a possible
/// drag unless one is already pending; a release or canceled press ends a
/// drag under way and abandons a pending one.
pub fn custom_update_drag_state(state: CustomDragState, flux: FluxInteraction) -> (r: DragStateUpdate)
    ensures
        r == spec_state_change(state, flux),
{
    match flux {
        FluxInteraction::Pressed => {
            if matches!(state, CustomDragState::MaybeDragged) {
                DragStateUpdate { state, begin: false, clear: false }
            } else {
                DragStateUpdate { state: CustomDragState::MaybeDragged, begin: true, clear: false }
            }
        },
        FluxInteraction::Released | FluxInteraction::PressCanceled => {
            match state {
                CustomDragState::DragStart | CustomDragState::Dragging =>
                    DragStateUpdate { state: CustomDragState::DragEnd, begin: false, clear: false },
                CustomDragState::MaybeDragged =>
                    DragStateUpdate { state: CustomDragState::Inactive, begin: false, clear: true },
                _ => DragStateUpdate { state, begin: false, clear: false },
            }
        },
        _ => DragStateUpdate { state, begin: false, clear: false },
    }
}

/// While pressed, a drag start lasts a single frame; an ended or canceled drag is inactive
/// after one frame, positions are only recorded while pressed, and escape
/// during a pressed drag always cancels it.
pub proof fn lemma_drag_progress_properties(
    state: CustomDragState,
    flux: FluxInteraction,
    escape_just_pressed: bool,
    moved: bool,
)
    ensures
        ({
            let p = spec_progress(state, flux, escape_just_pressed, moved);
            &&& (state is DragStart && flux is Pressed) ==> !(p.state is DragStart)
            &&& (state is DragEnd || state is DragCanceled) ==> p.state is Inactive && !p.track
            &&& p.track ==> flux is Pressed && moved
            &&& (flux is Pressed && is_dragging(state) && escape_just_pressed) ==> p.state is DragCanceled
            &&& (state is Inactive) ==> p == DragProgress { state, clear: false, track: false }
        }),
{
}

/// A release or a canceled press always stops a drag: nothing is pending or
/// under way afterwards, and a drag under way is reported as ended.
pub proof fn lemma_release_stops_drag(state: CustomDragState, flux: FluxInteraction)
    ensures
        (flux is Released || flux is PressCanceled) ==> {
            let u = spec_state_change(state, flux);
            &&& !is_dragging(u.state) && !(u.state is MaybeDragged)
            &&& is_dragging(state) ==> u.state is DragEnd
        },
        flux is Pressed ==> spec_state_change(state, flux).state is MaybeDragged,
{
}

/// A full drag: press, move, keep moving, release and let a frame pass goes
/// from inactive through every stage back to inactive.
pub proof fn lemma_drag_life_cycle()
    ensures
        ({
            let s1 = spec_state_change(CustomDragState::Inactive, FluxInteraction::Pressed).state;
            let s2 = spec_progress(s1, FluxInteraction::Pressed, false, true).state;
            let s3 = spec_progress(s2, FluxInteraction::Pressed, false, true).state;
            let s4 = spec_state_change(s3, FluxInteraction::Released).state;
            let s5 = spec_progress(s4, FluxInteraction::Released, false, false).state;
            &&& s1 is MaybeDragged
            &&& s2 is DragStart
            &&& s3 is Dragging
            &&& s4 is DragEnd
            &&& s5 is Inactive
        }),
{
}


/// While the node is pressed, a pending or ongoing drag that escape does not
/// cancel records every pointer motion and only pointer motion; it then is,
/// or becomes, a drag under way: a pending drag that moved starts, a start
/// goes on dragging, and dragging goes on. Nothing is cleared.
pub proof fn lemma_pressed_drag_tracks_motion(
    state: CustomDragState,
    escape_just_pressed: bool,
    moved: bool,
)
    requires
        (state is MaybeDragged || is_dragging(state)),
        !(is_dragging(state) && escape_just_pressed),
    ensures
        ({
            let p = spec_progress(state, FluxInteraction::Pressed, escape_just_pressed, moved);
            &&& p.track == moved
            &&& !p.clear
            &&& is_dragging(state) ==> p.state is Dragging
            &&& state is MaybeDragged ==> (p.state is DragStart) == moved
            &&& state is MaybeDragged && !moved ==> p.state is MaybeDragged
        }),
{
}

/// Without a press nothing is ever recorded, and a state other than an
/// ended or canceled drag is left as it is.
pub proof fn lemma_unpressed_progress_holds(
    state: CustomDragState,
    flux: FluxInteraction,
    escape_just_pressed: bool,
    moved: bool,
)
    requires
        !(flux is Pressed),
        !(state is DragEnd || state is DragCanceled),
    ensures
        spec_progress(state, flux, escape_just_pressed, moved) == (DragProgress { state, clear: false, track: false }),
{
}

} // verus!
