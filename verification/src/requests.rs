//! Territories and the requests that move them, generic over the geometry
//! `K` that describes where an element is (its rectangles), the delta `V` of a
//! drag, the extent `T` that resize magnitudes carry and the identifier `E`
//! of a UI node.
use vstd::prelude::*;

use crate::motion::MoveRequestType;
use crate::resize::ResizeDirection;

verus! {

/// A territory: a space in which tabs are organized, with the UI nodes that
/// display it, when its display library needs them.
#[derive(Clone, Copy, Debug, PartialEq)]
pub struct Territory<K, E> {
    pub expanse: K,
    pub base_node: Option<E>,
    pub drag_node: Option<E>,
    pub resize_node: Option<E>,
}

impl<K: Copy, E: Copy> Territory<K, E> {
    pub fn new(expanse: K, base_node: Option<E>, drag_node: Option<E>, resize_node: Option<E>) -> (r: Self)
        ensures
            r.expanse == expanse,
            r.base_node == base_node,
            r.drag_node == drag_node,
            r.resize_node == resize_node,
    {
        Territory { expanse, base_node, drag_node, resize_node }
    }

    /// The territory's geometry.
    pub fn expanse(&self) -> (r: K)
        ensures
            r == self.expanse,
    {
        self.expanse
    }

    /// The base node, if any.
    pub fn base_node(&self) -> (r: Option<E>)
        ensures
            r == self.base_node,
    {
        self.base_node
    }

    /// The drag node, if any.
    pub fn drag_node(&self) -> (r: Option<E>)
        ensures
            r == self.drag_node,
    {
        self.drag_node
    }

    /// The resize grid node, if any.
    pub fn resize_node(&self) -> (r: Option<E>)
        ensures
            r == self.resize_node,
    {
        self.resize_node
    }
}

/// A request to move an element without changing its size.
#[derive(Clone, Copy, Debug, PartialEq)]
pub struct DragRequest<K, V> {
    pub proposed_expanse: K,
    pub drag_delta: V,
}

impl<K: Copy, V: Copy> DragRequest<K, V> {
    pub fn new(proposed_expanse: K, drag_delta: V) -> (r: Self)
        ensures
            r.proposed_expanse == proposed_expanse,
            r.drag_delta == drag_delta,
    {
        DragRequest { proposed_expanse, drag_delta }
    }

    /// Where the element wants to move to.
    pub fn proposed_expanse(&self) -> (r: K)
        ensures
            r == self.proposed_expanse,
    {
        self.proposed_expanse
    }

    /// The screenspace delta of the drag.
    pub fn drag_delta(&self) -> (r: V)
        ensures
            r == self.drag_delta,
    {
        self.drag_delta
    }
}

/// A request to change an element's boundaries through a resize handle.
#[derive(Clone, Copy, Debug, PartialEq)]
pub struct ResizeRequest<K, T> {
    pub proposed_expanse: K,
    pub resize_direction: ResizeDirection<T>,
}

impl<K: Copy, T: Copy> ResizeRequest<K, T> {
    pub fn new(proposed_expanse: K, resize_direction: ResizeDirection<T>) -> (r: Self)
        ensures
            r.proposed_expanse == proposed_expanse,
            r.resize_direction == resize_direction,
    {
        ResizeRequest { proposed_expanse, resize_direction }
    }

    /// Where and how large the element wants to be.
    pub fn proposed_expanse(&self) -> (r: K)
        ensures
            r == self.proposed_expanse,
    {
        self.proposed_expanse
    }

    /// The handle the user manipulated.
    pub fn resize_direction(&self) -> (r: ResizeDirection<T>)
        ensures
            r == self.resize_direction,
    {
        self.resize_direction
    }
}

/// A request to move an element, of a kind the motion pipeline may still
/// have to find out.
#[derive(Clone, Copy, Debug, PartialEq)]
pub struct MoveRequest<K, T> {
    pub proposed_expanse: K,
    pub move_type: MoveRequestType<T>,
}

impl<K: Copy, T: Copy> MoveRequest<K, T> {
    pub fn new(proposed_expanse: K, move_type: MoveRequestType<T>) -> (r: Self)
        ensures
            r.proposed_expanse == proposed_expanse,
            r.move_type == move_type,
    {
        MoveRequest { proposed_expanse, move_type }
    }

    /// Where the element wants to move to.
    pub fn proposed_expanse(&self) -> (r: K)
        ensures
            r == self.proposed_expanse,
    {
        self.proposed_expanse
    }

    /// The kind of motion.
    pub fn move_type(&self) -> (r: MoveRequestType<T>)
        ensures
            r == self.move_type,
    {
        self.move_type
    }

    /// Marks the kind of motion as not known yet; the proposal stays.
    pub fn move_type_unknown(&mut self)
        ensures
            final(self).move_type == MoveRequestType::<T>::Unknown,
            final(self).proposed_expanse == old(self).proposed_expanse,
    {
        self.move_type = MoveRequestType::Unknown;
    }

    /// Marks the motion as a drag; the proposal stays.
    pub fn move_type_drag(&mut self)
        ensures
            final(self).move_type == MoveRequestType::<T>::Drag,
            final(self).proposed_expanse == old(self).proposed_expanse,
    {
        self.move_type = MoveRequestType::Drag;
    }

    /// Marks the motion as a resize through the given handle; the proposal stays.
    pub fn move_type_resize(&mut self, resize_direction: ResizeDirection<T>)
        ensures
            final(self).move_type == MoveRequestType::Resize(resize_direction),
            final(self).proposed_expanse == old(self).proposed_expanse,
    {
        self.move_type = MoveRequestType::Resize(resize_direction);
    }
}

} // verus!
