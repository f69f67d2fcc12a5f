use vstd::prelude::*;
use crate::model::PlacedPart;
use crate::session::AppState;
use crate::edit::{parts_at, same_except_frame_parts, swap_adjacent, moved_to_top, moved_to_bottom, visibility_toggled};

verus! {

impl AppState {
    /// The layers of the current frame, bottom first (meaningful when `has_frame()`).
    pub open spec fn current_layers(self) -> Seq<PlacedPart> {
        self.the_frame().placed_parts@
    }

    /// `after` is this state with the layers of the current frame replaced by `layers`.
    pub open spec fn layers_replaced(self, after: AppState, layers: Seq<PlacedPart>) -> bool {
        let c = self.active_index();
        let a = self.current_animation as int;
        let f = self.current_frame as int;
        &&& after.project is Some
        &&& same_except_frame_parts(self.the_project(), after.the_project(), c, a, f)
        &&& parts_at(after.the_project(), c, a, f) == layers
        &&& after == (AppState { project: after.project, ..self })
    }

    /// Flips the visibility of layer `idx` of the current frame; nothing happens when there
    /// is no such layer.
    pub fn toggle_current_layer_visibility(&mut self, idx: usize)
        ensures
            old(self).has_frame() && idx < old(self).current_layers().len()
                ==> old(self).layers_replaced(*final(self), visibility_toggled(old(self).current_layers(), idx as int)),
            !(old(self).has_frame() && idx < old(self).current_layers().len()) ==> *final(self) == *old(self),
    {
        let (c, a, f) = match self.current_frame_indices() {
            Some(x) => x,
            None => { return; },
        };
        let n = match self.current_frame_ref() {
            Some(fr) => fr.placed_parts.len(),
            None => { return; },
        };
        if idx < n {
            let mut p = self.take_project();
            p.toggle_layer_visibility(c, a, f, idx);
            self.project = Some(p);
        }
    }

    /// Moves layer `idx` of the current frame one place up; nothing happens when it is the
    /// top layer or there is no such layer.
    pub fn move_current_layer_up(&mut self, idx: usize)
        ensures
            old(self).has_frame() && idx + 1 < old(self).current_layers().len()
                ==> old(self).layers_replaced(*final(self), swap_adjacent(old(self).current_layers(), idx as int)),
            !(old(self).has_frame() && idx + 1 < old(self).current_layers().len()) ==> *final(self) == *old(self),
    {
        let (c, a, f) = match self.current_frame_indices() {
            Some(x) => x,
            None => { return; },
        };
        let n = match self.current_frame_ref() {
            Some(fr) => fr.placed_parts.len(),
            None => { return; },
        };
        if idx < n && idx + 1 < n {
            let mut p = self.take_project();
            p.swap_layers(c, a, f, idx);
            self.project = Some(p);
        }
    }

    /// Moves layer `idx` of the current frame one place down; nothing happens when it is the
    /// bottom layer or there is no such layer.
    pub fn move_current_layer_down(&mut self, idx: usize)
        ensures
            old(self).has_frame() && 0 < idx < old(self).current_layers().len()
                ==> old(self).layers_replaced(*final(self), swap_adjacent(old(self).current_layers(), idx - 1)),
            !(old(self).has_frame() && 0 < idx < old(self).current_layers().len()) ==> *final(self) == *old(self),
    {
        let (c, a, f) = match self.current_frame_indices() {
            Some(x) => x,
            None => { return; },
        };
        let n = match self.current_frame_ref() {
            Some(fr) => fr.placed_parts.len(),
            None => { return; },
        };
        if 0 < idx && idx < n {
            let mut p = self.take_project();
            p.swap_layers(c, a, f, idx - 1);
            self.project = Some(p);
        }
    }

    /// Moves layer `idx` of the current frame to the top; nothing happens when it is there
    /// already or there is no such layer.
    pub fn move_current_layer_to_top(&mut self, idx: usize)
        ensures
            old(self).has_frame() && idx + 1 < old(self).current_layers().len()
                ==> old(self).layers_replaced(*final(self), moved_to_top(old(self).current_layers(), idx as int)),
            !(old(self).has_frame() && idx + 1 < old(self).current_layers().len()) ==> *final(self) == *old(self),
    {
        let (c, a, f) = match self.current_frame_indices() {
            Some(x) => x,
            None => { return; },
        };
        let n = match self.current_frame_ref() {
            Some(fr) => fr.placed_parts.len(),
            None => { return; },
        };
        if idx < n && idx + 1 < n {
            let mut p = self.take_project();
            p.move_layer_to_top(c, a, f, idx);
            self.project = Some(p);
        }
    }

    /// Moves layer `idx` of the current frame to the bottom; nothing happens when it is there
    /// already or there is no such layer.
    pub fn move_current_layer_to_bottom(&mut self, idx: usize)
        ensures
            old(self).has_frame() && 0 < idx < old(self).current_layers().len()
                ==> old(self).layers_replaced(*final(self), moved_to_bottom(old(self).current_layers(), idx as int)),
            !(old(self).has_frame() && 0 < idx < old(self).current_layers().len()) ==> *final(self) == *old(self),
    {
        let (c, a, f) = match self.current_frame_indices() {
            Some(x) => x,
            None => { return; },
        };
        let n = match self.current_frame_ref() {
            Some(fr) => fr.placed_parts.len(),
            None => { return; },
        };
        if 0 < idx && idx < n {
            let mut p = self.take_project();
            p.move_layer_to_bottom(c, a, f, idx);
            self.project = Some(p);
        }
    }
}

} // verus!
