//! Dragging a block of a document onto another one to reorder them.

use vstd::prelude::*;

use crate::blocks::{has_id, is_first_with_id, position_of, ElementNode};

verus! {

/// Where a dragged block lands relative to the block it is dropped on.
#[derive(Clone, Copy, Debug, PartialEq, Eq, Structural)]
pub enum MovingElement {
    After,
    Before,
}

/// The drag in progress: the block being dragged, and the drop zone under
/// the pointer. Blocks are known by their 128-bit identifiers.
pub struct DragController {
    pub dragging_id: Option<u128>,
    pub hovered_drop_zone: Option<(u128, MovingElement)>,
    pub is_dragging: bool,
}

/// The position at which a block taken from `from` is inserted when dropped
/// on the block at `target`, into the `len` blocks left once it is removed.
pub open spec fn drop_position(from: int, target: int, position: MovingElement, len: int) -> int {
    let to = match position {
        MovingElement::After => if from < target {
            if target > 0 {
                target - 1
            } else {
                0
            }
        } else {
            target
        },
        MovingElement::Before => if from >= target {
            target + 1
        } else {
            target
        },
    };
    if to > len {
        len
    } else {
        to
    }
}

impl DragController {
    /// No drag in progress.
    pub fn new() -> (r: Self)
        ensures
            r.dragging_id is None,
            r.hovered_drop_zone is None,
            !r.is_dragging,
    {
        DragController { dragging_id: None, hovered_drop_zone: None, is_dragging: false }
    }

    /// Starts dragging block `id`.
    pub fn start_drag(&mut self, id: u128)
        ensures
            final(self).dragging_id == Some(id),
            final(self).is_dragging,
            final(self).hovered_drop_zone == old(self).hovered_drop_zone,
    {
        self.dragging_id = Some(id);
        self.is_dragging = true;
    }

    /// Ends the drag.
    pub fn stop_drag(&mut self)
        ensures
            final(self).dragging_id is None,
            final(self).hovered_drop_zone is None,
            !final(self).is_dragging,
    {
        self.dragging_id = None;
        self.is_dragging = false;
        self.hovered_drop_zone = None;
    }

    /// Records the pointer over block `id`: inside it, in drop zone `zone`,
    /// or outside it. Returns whether the hovered drop zone changed.
    pub fn update_hover(&mut self, id: u128, inside: bool, zone: MovingElement) -> (changed: bool)
        ensures
            inside ==> final(self).hovered_drop_zone == Some((id, zone)),
            inside ==> changed == (old(self).hovered_drop_zone != Some((id, zone))),
            !inside && (old(self).hovered_drop_zone matches Some((i, _)) && i == id) ==> (changed
                && final(self).hovered_drop_zone is None),
            !inside && !(old(self).hovered_drop_zone matches Some((i, _)) && i == id) ==> (!changed
                && final(self).hovered_drop_zone == old(self).hovered_drop_zone),
            final(self).dragging_id == old(self).dragging_id,
            final(self).is_dragging == old(self).is_dragging,
    {
        if inside {
            let same = match self.hovered_drop_zone {
                Some((i, z)) => i == id && z == zone,
                None => false,
            };
            if !same {
                self.hovered_drop_zone = Some((id, zone));
                return true;
            }
        } else {
            match self.hovered_drop_zone {
                Some((i, _)) => {
                    if i == id {
                        self.hovered_drop_zone = None;
                        return true;
                    }
                },
                None => {},
            }
        }
        false
    }

    /// Ends the drag when the pointer has left the drop area. Returns
    /// whether it had.
    pub fn on_outside(&mut self, is_outside: bool) -> (r: bool)
        ensures
            r == is_outside,
            is_outside ==> !final(self).is_dragging && final(self).dragging_id is None
                && final(self).hovered_drop_zone is None,
            !is_outside ==> *final(self) == *old(self),
    {
        if is_outside {
            self.stop_drag();
        }
        is_outside
    }

    /// Moves the block at `from_index` to where it is dropped on the block
    /// at `target_index`, and ends the drag.
    pub fn drop_element_by_index<T>(
        &mut self,
        elements: &mut Vec<T>,
        from_index: usize,
        target_index: usize,
        position: MovingElement,
    )
        requires
            from_index < old(elements)@.len(),
        ensures
            final(elements)@ == old(elements)@.remove(from_index as int).insert(
                drop_position(
                    from_index as int,
                    target_index as int,
                    position,
                    old(elements)@.len() - 1,
                ),
                old(elements)@[from_index as int],
            ),
            final(self).dragging_id is None,
            final(self).hovered_drop_zone is None,
            !final(self).is_dragging,
    {
        let len = elements.len();
        proof {
            assert(from_index < len);
        }
        let element = elements.remove(from_index);
        let mut to_index: usize = target_index;
        match position {
            MovingElement::After => {
                if from_index < target_index {
                    to_index = target_index.saturating_sub(1);
                }
            },
            MovingElement::Before => {
                if from_index >= target_index {
                    to_index = target_index + 1;
                }
            },
        }
        let final_index = if to_index > elements.len() {
            elements.len()
        } else {
            to_index
        };
        elements.insert(final_index, element);
        self.stop_drag();
    }
}

impl DragController {
    /// Drops the dragged block on the block `target_id`: the dragged block
    /// moves as `drop_element_by_index` says, from its position to that of
    /// the target, and the drag ends. A drag must be in progress, and both
    /// blocks must be present.
    pub fn on_drop<E>(&mut self, elements: &mut Vec<ElementNode<E>>, target_id: u128, direction: MovingElement)
        requires
            old(self).dragging_id is Some,
            has_id(old(elements)@, old(self).dragging_id.unwrap()),
            has_id(old(elements)@, target_id),
        ensures
            exists|from: int, target: int|
                is_first_with_id(old(elements)@, old(self).dragging_id.unwrap(), from)
                    && is_first_with_id(old(elements)@, target_id, target) && final(elements)@
                    == old(elements)@.remove(from).insert(
                    drop_position(from, target, direction, old(elements)@.len() - 1),
                    old(elements)@[from],
                ),
            final(self).dragging_id is None,
            final(self).hovered_drop_zone is None,
            !final(self).is_dragging,
    {
        let from_id = self.dragging_id.unwrap();
        let from_index = position_of(elements, from_id).unwrap();
        let target_index = position_of(elements, target_id).unwrap();
        self.drop_element_by_index(elements, from_index, target_index, direction);
    }
}

impl Default for DragController {
    fn default() -> (r: Self)
        ensures
            r.dragging_id is None,
            r.hovered_drop_zone is None,
            !r.is_dragging,
    {
        DragController::new()
    }
}

} // verus!
