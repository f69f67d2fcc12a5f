use vstd::prelude::*;
use crate::model::{Animation, Character, PlacedPart, first_index_of, part_names, state_names};
use crate::project::character_names;
use crate::session::{AppState, first_with_id, lemma_first_with_id};
use crate::edit::{parts_at, same_except_character, same_except_animation, same_except_frame_parts};
use crate::layers::views;

verus! {

impl AppState {
    /// The active character, for modification.
    pub fn active_character_mut(&mut self) -> (r: Option<&mut Character>)
        ensures
            old(self).active_index() < 0 ==> r is None && *final(self) == *old(self),
            old(self).active_index() >= 0 ==> r is Some,
            match r {
                Some(x) => {
                    let c = old(self).active_index();
                    &&& *x == old(self).the_character()
                    &&& final(self).project is Some
                    &&& same_except_character(old(self).the_project(), final(self).the_project(), c)
                    &&& final(self).the_project().characters@[c] == *final(x)
                    &&& *final(self) == (AppState { project: final(self).project, ..*old(self) })
                },
                None => true,
            },
    {
        let c = match self.active_character_index() {
            Some(c) => c,
            None => { return None; },
        };
        match &mut self.project {
            Some(p) => Some(p.character_at_mut(c)),
            None => None,
        }
    }

    /// The current animation of the active character, for modification.
    pub fn current_animation_mut(&mut self) -> (r: Option<&mut Animation>)
        ensures
            !old(self).has_animation() ==> r is None && *final(self) == *old(self),
            old(self).has_animation() ==> r is Some,
            match r {
                Some(x) => {
                    let c = old(self).active_index();
                    let a = old(self).current_animation as int;
                    &&& *x == old(self).the_animation()
                    &&& final(self).project is Some
                    &&& same_except_animation(old(self).the_project(), final(self).the_project(), c, a)
                    &&& final(self).the_project().characters@[c].animations@[a] == *final(x)
                    &&& *final(self) == (AppState { project: final(self).project, ..*old(self) })
                },
                None => true,
            },
    {
        let (c, a) = match self.current_animation_indices() {
            Some(x) => x,
            None => { return None; },
        };
        match &mut self.project {
            Some(p) => Some(p.animation_at_mut(c, a)),
            None => None,
        }
    }

    /// Index of the selected layer in the current frame: the first with the selected ID.
    pub open spec fn selected_index(self) -> int {
        if self.selected_part_id is Some && self.has_frame() {
            first_with_id(self.the_frame().placed_parts@, self.selected_part_id.unwrap())
        } else {
            -1
        }
    }

    /// Index of the selected layer in the current frame.
    pub fn selected_layer_index(&self) -> (r: Option<usize>)
        ensures
            match r {
                Some(k) => self.selected_index() >= 0 && k as int == self.selected_index()
                    && k < self.the_frame().placed_parts.len(),
                None => self.selected_index() < 0,
            },
    {
        let id = match self.selected_part_id {
            Some(id) => id,
            None => { return None; },
        };
        let frame = match self.current_frame_ref() {
            Some(f) => f,
            None => { return None; },
        };
        proof { lemma_first_with_id(frame.placed_parts@, id); }
        let mut k: usize = 0;
        while k < frame.placed_parts.len()
            invariant
                k <= frame.placed_parts.len(),
                self.has_frame(),
                *frame == self.the_frame(),
                self.selected_part_id == Some(id),
                forall|j: int| 0 <= j < k ==> (#[trigger] frame.placed_parts@[j]).id != id,
            decreases frame.placed_parts.len() - k,
        {
            if frame.placed_parts[k].id == id {
                proof {
                    lemma_first_with_id(frame.placed_parts@, id);
                    let f = first_with_id(frame.placed_parts@, id);
                    if f < k { assert(frame.placed_parts@[f].id != id); }
                    if f > k { assert(frame.placed_parts@[k as int].id != id); }
                }
                return Some(k);
            }
            k = k + 1;
        }
        proof { lemma_first_with_id(frame.placed_parts@, id); }
        None
    }

    /// The selected layer of the current frame, for modification.
    pub fn get_selected_placed_part_mut(&mut self) -> (r: Option<&mut PlacedPart>)
        ensures
            old(self).selected_index() < 0 ==> r is None && *final(self) == *old(self),
            old(self).selected_index() >= 0 ==> r is Some,
            match r {
                Some(x) => {
                    let c = old(self).active_index();
                    let a = old(self).current_animation as int;
                    let f = old(self).current_frame as int;
                    let k = old(self).selected_index();
                    &&& k >= 0
                    &&& *x == parts_at(old(self).the_project(), c, a, f)[k]
                    &&& final(self).project is Some
                    &&& same_except_frame_parts(old(self).the_project(), final(self).the_project(), c, a, f)
                    &&& parts_at(final(self).the_project(), c, a, f) == parts_at(old(self).the_project(), c, a, f).update(k, *final(x))
                    &&& *final(self) == (AppState { project: final(self).project, ..*old(self) })
                },
                None => true,
            },
    {
        let k = match self.selected_layer_index() {
            Some(k) => k,
            None => { return None; },
        };
        let (c, a, f) = match self.current_frame_indices() {
            Some(x) => x,
            None => { return None; },
        };
        match &mut self.project {
            Some(p) => {
                let parts = p.frame_parts_mut(c, a, f);
                Some(&mut parts[k])
            },
            None => None,
        }
    }

    /// The layer selected in the current frame (meaningful when `selected_index() >= 0`).
    pub open spec fn the_selected(self) -> PlacedPart {
        self.the_frame().placed_parts@[self.selected_index()]
    }

    /// `after` is this state with the selected layer replaced by `layer`.
    pub open spec fn selected_replaced(self, after: AppState, layer: PlacedPart) -> bool {
        let c = self.active_index();
        let a = self.current_animation as int;
        let f = self.current_frame as int;
        &&& after.project is Some
        &&& same_except_frame_parts(self.the_project(), after.the_project(), c, a, f)
        &&& parts_at(after.the_project(), c, a, f) == parts_at(self.the_project(), c, a, f).update(self.selected_index(), layer)
        &&& after == (AppState { project: after.project, ..self })
    }

    /// What `after` holds where this state's selected layer was.
    pub open spec fn layer_in_place(self, after: AppState) -> PlacedPart {
        parts_at(after.the_project(), self.active_index(), self.current_animation as int,
            self.current_frame as int)[self.selected_index()]
    }

    /// Puts `layer` in place of the selected layer.
    fn replace_selected(&mut self, k: usize, layer: PlacedPart)
        requires
            old(self).selected_index() >= 0,
            k as int == old(self).selected_index(),
        ensures
            old(self).selected_replaced(*final(self), layer),
    {
        let idx = self.current_frame_indices();
        proof { lemma_first_with_id(self.the_frame().placed_parts@, self.selected_part_id.unwrap()); }
        let (c, a, f) = match idx {
            Some(x) => x,
            None => { return; },
        };
        let mut p = self.take_project();
        let parts = p.frame_parts_mut(c, a, f);
        parts.set(k, layer);
        self.project = Some(p);
    }

    /// Shows the selected layer in state `name`.
    pub fn set_selected_state(&mut self, name: &str)
        ensures
            old(self).selected_index() < 0 ==> *final(self) == *old(self),
            old(self).selected_index() >= 0 ==> {
                let q = old(self).layer_in_place(*final(self));
                &&& old(self).selected_replaced(*final(self), q)
                &&& q == (PlacedPart { state_name: q.state_name, ..old(self).the_selected() })
                &&& q.state_name@ == name@
            },
    {
        let k = match self.selected_layer_index() {
            Some(k) => k,
            None => { return; },
        };
        let mut q = match self.get_selected_placed_part() {
            Some(x) => x.clone(),
            None => { return; },
        };
        q.state_name = name.to_owned();
        self.replace_selected(k, q);
    }

    /// Turns the selected layer to `angle` degrees.
    pub fn set_selected_rotation(&mut self, angle: u16)
        ensures
            old(self).selected_index() < 0 ==> *final(self) == *old(self),
            old(self).selected_index() >= 0 ==> old(self).selected_replaced(*final(self),
                PlacedPart { rotation: angle, ..old(self).the_selected() }),
    {
        match self.get_selected_placed_part_mut() {
            Some(part) => { part.rotation = angle; },
            None => {},
        }
    }

    /// Names of the states of the part the selected layer shows, looked up by the layer's
    /// character and part names; empty when nothing is selected or the part is gone.
    pub open spec fn selected_part_state_names(self) -> Seq<Seq<char>> {
        if self.selected_index() >= 0 {
            let l = self.the_selected();
            let chars = self.the_project().characters@;
            let ci = first_index_of(character_names(chars), l.character_name@);
            if ci >= 0 {
                let parts = chars[ci].parts@;
                let pi = first_index_of(part_names(parts), l.part_name@);
                if pi >= 0 { state_names(parts[pi].states@) } else { Seq::empty() }
            } else {
                Seq::empty()
            }
        } else {
            Seq::empty()
        }
    }

    /// Names of the states the selected layer can be switched to.
    pub fn selected_part_states(&self) -> (r: Vec<String>)
        ensures
            views(r@) == self.selected_part_state_names(),
    {
        let mut out: Vec<String> = Vec::new();
        let layer = match self.get_selected_placed_part() {
            Some(x) => x,
            None => { return out; },
        };
        let p = match &self.project {
            Some(p) => p,
            None => { return out; },
        };
        let ch = match p.get_character(layer.character_name.as_str()) {
            Some(c) => c,
            None => {
                assert(views(out@) =~= Seq::empty());
                return out;
            },
        };
        let part = match ch.get_part(layer.part_name.as_str()) {
            Some(x) => x,
            None => {
                assert(views(out@) =~= Seq::empty());
                return out;
            },
        };
        let mut i: usize = 0;
        while i < part.states.len()
            invariant
                i <= part.states.len(),
                views(out@) == state_names(part.states@).take(i as int),
            decreases part.states.len() - i,
        {
            let ghost prev = out@;
            let name = part.states[i].name.clone();
            out.push(name);
            assert(views(out@) =~= views(prev).push(name@));
            assert(state_names(part.states@).take(i as int + 1)
                =~= state_names(part.states@).take(i as int).push(part.states@[i as int].name@));
            i = i + 1;
        }
        assert(state_names(part.states@).take(i as int) =~= state_names(part.states@));
        out
    }
}

} // verus!
