use vstd::prelude::*;
use vstd::string::StringExecFns;
use crate::model::{Character, Part, Rotation, State, first_index_of, lemma_first_index_of, part_names, state_names};
use crate::project::{Project, character_names};
use crate::session::{AppState, Dialogs};
use crate::text::{decimal, decimal_string};

verus! {

/// Where rotation `angle` of state `state` of part `part` of character `character` is kept
/// in `p`: (character, part, state) indices, each the first of its name, when all exist and
/// the state has a rotation at that angle.
pub open spec fn rotation_slot(p: Project, character: Seq<char>, part: Seq<char>, state: Seq<char>, angle: u16)
    -> Option<(int, int, int)>
{
    let c = first_index_of(character_names(p.characters@), character);
    if c < 0 {
        None
    } else {
        let parts = p.characters@[c].parts@;
        let k = first_index_of(part_names(parts), part);
        if k < 0 {
            None
        } else {
            let states = parts[k].states@;
            let s = first_index_of(state_names(states), state);
            if s < 0 || !states[s].rotations@.contains_key(angle) { None } else { Some((c, k, s)) }
        }
    }
}

/// `after` is `before` with the image of rotation `angle` of state `s` of part `k` of
/// character `c` set to `data`, everything else kept.
pub open spec fn rotation_image_set(before: Project, after: Project, c: int, k: int, s: int, angle: u16, data: String) -> bool {
    let oc = before.characters@[c];
    let nc = after.characters@[c];
    let op = oc.parts@[k];
    let np = nc.parts@[k];
    let os = op.states@[s];
    let ns = np.states@[s];
    &&& after == (Project { characters: after.characters, ..before })
    &&& after.characters@ == before.characters@.update(c, nc)
    &&& nc == (Character { parts: nc.parts, ..oc })
    &&& nc.parts@ == oc.parts@.update(k, np)
    &&& np == (Part { states: np.states, ..op })
    &&& np.states@ == op.states@.update(s, ns)
    &&& ns.name == os.name && ns.rotation_mode == os.rotation_mode
    &&& ns.rotations@ == os.rotations@.insert(angle, Rotation { image_data: Some(data), ..os.rotations@[angle] })
}

/// The status shown after an image was imported for rotation `angle`.
pub open spec fn imported_message(angle: u16) -> Seq<char> {
    "Image imported for "@ + decimal(angle as nat) + "° rotation"@
}

/// Sets the image of the rotation of `state` at `angle` to `data`.
fn set_state_image(state: &mut State, angle: u16, data: String)
    requires
        old(state).rotations@.contains_key(angle),
    ensures
        final(state).name == old(state).name,
        final(state).rotation_mode == old(state).rotation_mode,
        final(state).rotations@ == old(state).rotations@.insert(angle,
            Rotation { image_data: Some(data), ..old(state).rotations@[angle] }),
{
    broadcast use vstd::std_specs::hash::group_hash_axioms;
    let mut rot = match state.rotations.get(&angle) {
        Some(r) => r.clone(),
        None => Rotation { angle, image_data: None, is_mirrored: false },
    };
    rot.image_data = Some(data);
    state.rotations.insert(angle, rot);
}

impl Project {
    /// Sets the image of rotation `angle` of the first state called `state` of the first part
    /// called `part` of the first character called `character`; returns whether that rotation
    /// exists, and changes nothing when it does not.
    pub fn set_rotation_image(&mut self, character: &str, part: &str, state: &str, angle: u16, data: String) -> (done: bool)
        ensures
            done == rotation_slot(*old(self), character@, part@, state@, angle) is Some,
            match rotation_slot(*old(self), character@, part@, state@, angle) {
                Some((c, k, s)) => rotation_image_set(*old(self), *final(self), c, k, s, angle, data),
                None => *final(self) == *old(self),
            },
    {
        broadcast use vstd::std_specs::hash::group_hash_axioms;
        proof { lemma_first_index_of(character_names(self.characters@), character@); }
        let c = match self.character_index(character) {
            Some(c) => c,
            None => { return false; },
        };
        proof { lemma_first_index_of(part_names(self.characters@[c as int].parts@), part@); }
        let k = match self.characters[c].part_index(part) {
            Some(k) => k,
            None => { return false; },
        };
        proof { lemma_first_index_of(state_names(self.characters@[c as int].parts@[k as int].states@), state@); }
        let s = match self.characters[c].parts[k].state_index(state) {
            Some(s) => s,
            None => { return false; },
        };
        if !self.characters[c].parts[k].states[s].rotations.contains_key(&angle) {
            return false;
        }
        let ghost before = *self;
        let ch = &mut self.characters[c];
        let pt = &mut ch.parts[k];
        let st = &mut pt.states[s];
        set_state_image(st, angle, data);
        proof {
            let nc = self.characters@[c as int];
            assert(self.characters@ =~= before.characters@.update(c as int, nc));
            assert(nc.parts@ =~= before.characters@[c as int].parts@.update(k as int, nc.parts@[k as int]));
            assert(nc.parts@[k as int].states@ =~= before.characters@[c as int].parts@[k as int].states@.update(
                s as int, nc.parts@[k as int].states@[s as int]));
        }
        true
    }
}

/// `after` is `before` with the import dialog closed and its selections dropped.
pub open spec fn import_dialog_closed(before: AppState, after: AppState) -> bool {
    &&& after.dialogs == (Dialogs {
            show_import_image_dialog: false,
            selected_character_for_part: None,
            selected_part_for_state: None,
            selected_state_for_import: None,
            ..before.dialogs })
}

/// What importing `data` into the rotation the dialog `d` was opened for does to project
/// `before`, leaving `after` and answering `status`.
pub open spec fn imported_into(before: Option<Project>, after: Option<Project>, d: Dialogs, data: String,
    status: Option<String>) -> bool
{
    if d.selected_character_for_part is Some && d.selected_part_for_state is Some
        && d.selected_state_for_import is Some {
        let slot = match before {
            Some(p) => rotation_slot(p, d.selected_character_for_part.unwrap()@,
                d.selected_part_for_state.unwrap()@, d.selected_state_for_import.unwrap()@,
                d.selected_rotation_for_import),
            None => None,
        };
        match slot {
            Some((c, k, s)) => {
                &&& after is Some
                &&& rotation_image_set(before.unwrap(), after.unwrap(), c, k, s, d.selected_rotation_for_import, data)
                &&& status matches Some(m) && m@ == imported_message(d.selected_rotation_for_import)
            },
            None => after == before && status is None,
        }
    } else {
        after == before && (status matches Some(m) && m@ == "Missing selection context"@)
    }
}

impl AppState {
    /// Puts `data` into the rotation the import dialog was opened for.
    fn store_imported(&mut self, data: String) -> (status: Option<String>)
        ensures
            imported_into(old(self).project, final(self).project, old(self).dialogs, data, status),
            *final(self) == (AppState { project: final(self).project, ..*old(self) }),
    {
        proof { reveal_strlit("Missing selection context"); }
        let angle = self.dialogs.selected_rotation_for_import;
        let sel = match (&self.dialogs.selected_character_for_part, &self.dialogs.selected_part_for_state,
            &self.dialogs.selected_state_for_import) {
            (Some(c), Some(p), Some(s)) => Some((c.clone(), p.clone(), s.clone())),
            _ => None,
        };
        let (c, p, s) = match sel {
            None => { return Some("Missing selection context".to_owned()); },
            Some(x) => x,
        };
        match &mut self.project {
            Some(proj) => {
                if proj.set_rotation_image(c.as_str(), p.as_str(), s.as_str(), angle, data) {
                    let mut m = "Image imported for ".to_owned();
                    m.append(decimal_string(angle as u128).as_str());
                    m.append("° rotation");
                    Some(m)
                } else {
                    None
                }
            },
            None => None,
        }
    }

    /// Ends the import dialog once the image file was read: `imported` holds the image as
    /// base64, or why it could not be read. The image goes to the rotation the dialog was
    /// opened for; the dialog closes and its selections are dropped. Returns the status
    /// message: none when the rotation no longer exists.
    pub fn finish_image_import(&mut self, imported: Result<String, String>) -> (status: Option<String>)
        ensures
            import_dialog_closed(*old(self), *final(self)),
            *final(self) == (AppState { project: final(self).project, dialogs: final(self).dialogs, ..*old(self) }),
            match imported {
                Err(e) => final(self).project == old(self).project
                    && (status matches Some(m) && m@ == "Import failed: "@ + e@),
                Ok(data) => imported_into(old(self).project, final(self).project, old(self).dialogs, data, status),
            },
    {
        proof { reveal_strlit("Import failed: "); }
        let status = match imported {
            Err(e) => {
                let mut m = "Import failed: ".to_owned();
                m.append(e.as_str());
                Some(m)
            },
            Ok(data) => self.store_imported(data),
        };
        self.dialogs.show_import_image_dialog = false;
        self.dialogs.selected_character_for_part = None;
        self.dialogs.selected_part_for_state = None;
        self.dialogs.selected_state_for_import = None;
        status
    }

    /// "Cancel" in the import dialog: closes it and drops its selections.
    pub fn cancel_image_import(&mut self)
        ensures
            import_dialog_closed(*old(self), *final(self)),
            *final(self) == (AppState { dialogs: final(self).dialogs, ..*old(self) }),
    {
        self.dialogs.show_import_image_dialog = false;
        self.dialogs.selected_character_for_part = None;
        self.dialogs.selected_part_for_state = None;
        self.dialogs.selected_state_for_import = None;
    }
}

} // verus!
