use vstd::prelude::*;
use vstd::string::StringExecFns;
use crate::model::{Character, State, first_index_of, lemma_first_index_of, part_names, state_names, slots_of};
use crate::project::{Project, character_names};
use crate::session::AppState;
use crate::types::ActiveTab;
use crate::edit::same_except_character;
use crate::import::{rotation_slot, rotation_image_set};
use crate::text::{decimal, decimal_string};

verus! {

/// Smallest frame side the character editor accepts.
pub const MIN_FRAME_SIDE: u32 = 8;

/// Largest frame side the character editor accepts.
pub const MAX_FRAME_SIDE: u32 = 512;

/// `v` brought into the frame sides the character editor accepts.
pub open spec fn clamped_side(v: i32) -> u32 {
    if v < MIN_FRAME_SIDE as i32 { MIN_FRAME_SIDE } else if v > MAX_FRAME_SIDE as i32 { MAX_FRAME_SIDE } else { v as u32 }
}

/// `v` brought into 8..=512.
fn clamp_side(v: i32) -> (r: u32)
    ensures
        r == clamped_side(v),
{
    if v < 8 { 8 } else if v > 512 { 512 } else { v as u32 }
}

/// Whether some rotation of `s` holds an image.
pub open spec fn state_has_images(s: State) -> bool {
    exists|a: u16| #[trigger] s.rotations@.contains_key(a) && s.rotations@[a].image_data is Some
}

/// The state rows the editor lists for the part selected in it: each state's name and
/// whether it has an image; empty without a project, character or selected part.
pub open spec fn state_rows_of(s: AppState, char_name: Seq<char>) -> Seq<(Seq<char>, bool)> {
    if s.project is Some && s.editor_selected_part is Some {
        let chars = s.the_project().characters@;
        let c = first_index_of(character_names(chars), char_name);
        if c >= 0 {
            let parts = chars[c].parts@;
            let k = first_index_of(part_names(parts), s.editor_selected_part.unwrap()@);
            if k >= 0 {
                parts[k].states@.map_values(|st: State| (st.name@, state_has_images(st)))
            } else {
                Seq::empty()
            }
        } else {
            Seq::empty()
        }
    } else {
        Seq::empty()
    }
}

/// The state whose rotations the editor's wheel shows: in the part selected in the editor of
/// character `char_name`, the state selected there, or else the part's first state; `None`
/// without a project, character, selected part or such a state.
pub open spec fn wheel_state(s: AppState, char_name: Seq<char>) -> Option<State> {
    if s.project is Some && s.editor_selected_part is Some {
        let chars = s.the_project().characters@;
        let c = first_index_of(character_names(chars), char_name);
        let parts = chars[c].parts@;
        let k = first_index_of(part_names(parts), s.editor_selected_part.unwrap()@);
        let states = parts[k].states@;
        let name: Option<Seq<char>> = match s.editor_selected_state {
            Some(n) => Some(n@),
            None => if states.len() > 0 { Some(states[0].name@) } else { None },
        };
        if c >= 0 && k >= 0 && name is Some {
            let i = first_index_of(state_names(states), name.unwrap());
            if i >= 0 { Some(states[i]) } else { None }
        } else {
            None
        }
    } else {
        None
    }
}

/// Views of the names in `rows`, with their flags.
pub open spec fn row_views(rows: Seq<(String, bool)>) -> Seq<(Seq<char>, bool)> {
    rows.map_values(|r: (String, bool)| (r.0@, r.1))
}

/// The message shown once an image was imported for rotation `angle` from the editor.
pub open spec fn rotation_imported_message(angle: u16) -> Seq<char> {
    "Imported image for "@ + decimal(angle as nat) + "°"@
}

/// What storing `data` as the image of rotation `angle` of the state `state` selected in the
/// editor ("default" when none is) of part `part` of character `ch` does to `before`, leaving
/// `after` and answering `status`.
#[verifier::opaque]
pub open spec fn rotation_stored(before: Option<Project>, after: Option<Project>, ch: Seq<char>, part: Option<String>,
    state: Option<String>, angle: u16, data: String, status: Option<String>) -> bool
{
    let state_name = match state {
        Some(s) => s@,
        None => "default"@,
    };
    let slot = if before is Some && part is Some {
        rotation_slot(before.unwrap(), ch, part.unwrap()@, state_name, angle)
    } else {
        None
    };
    match slot {
        Some((c, k, s)) => {
            &&& after is Some
            &&& rotation_image_set(before.unwrap(), after.unwrap(), c, k, s, angle, data)
            &&& status matches Some(m) && m@ == rotation_imported_message(angle)
        },
        None => after == before && status is None,
    }
}

impl AppState {
    /// Renames the character edited as `char_name` to `new_name`, typed in the editor's name
    /// field, unless the name is empty, unchanged or taken by a character. The active character
    /// becomes `new_name` and an editor tab follows.
    pub fn rename_edited_character(&mut self, char_name: &str, new_name: &str)
        ensures
            ({
                let applies = new_name@ != char_name@ && new_name@.len() > 0 && old(self).project is Some
                    && first_index_of(character_names(old(self).the_project().characters@), new_name@) < 0;
                if applies {
                    let op = old(self).the_project();
                    let np = final(self).the_project();
                    let c = first_index_of(character_names(op.characters@), char_name@);
                    &&& final(self).project is Some
                    &&& (c < 0 ==> np == op)
                    &&& (c >= 0 ==> same_except_character(op, np, c)
                        && np.characters@[c] == (Character { name: np.characters@[c].name, ..op.characters@[c] })
                        && np.characters@[c].name@ == new_name@)
                    &&& (final(self).active_character matches Some(n) && n@ == new_name@)
                    &&& (old(self).active_tab is CharacterEditor ==>
                        (final(self).active_tab matches ActiveTab::CharacterEditor(t) && t@ == new_name@))
                    &&& (old(self).active_tab is Canvas ==> final(self).active_tab == old(self).active_tab)
                    &&& *final(self) == (AppState { project: final(self).project, active_character: final(self).active_character,
                            active_tab: final(self).active_tab, ..*old(self) })
                } else {
                    *final(self) == *old(self)
                }
            }),
    {
        let new_owned = new_name.to_owned();
        if new_owned == char_name.to_owned() || new_name.is_empty() {
            return;
        }
        let (taken, ci) = match &self.project {
            Some(p) => {
                proof {
                    lemma_first_index_of(character_names(p.characters@), new_name@);
                    lemma_first_index_of(character_names(p.characters@), char_name@);
                }
                (p.character_index(new_name).is_some(), p.character_index(char_name))
            },
            None => { return; },
        };
        if taken {
            return;
        }
        match ci {
            Some(c) => {
                let mut p = self.take_project();
                let ch = p.character_at_mut(c);
                ch.name = new_name.to_owned();
                self.project = Some(p);
            },
            None => {},
        }
        self.active_character = Some(new_name.to_owned());
        match &self.active_tab {
            ActiveTab::CharacterEditor(_) => { self.active_tab = ActiveTab::CharacterEditor(new_name.to_owned()); },
            ActiveTab::Canvas => {},
        }
    }

    /// Sets the frame size of the first character called `char_name`, each side brought into
    /// 8..=512.
    pub fn set_frame_size(&mut self, char_name: &str, w: i32, h: i32)
        ensures
            ({
                let c = if old(self).project is Some {
                    first_index_of(character_names(old(self).the_project().characters@), char_name@)
                } else {
                    -1
                };
                if c >= 0 {
                    let op = old(self).the_project();
                    let np = final(self).the_project();
                    &&& final(self).project is Some
                    &&& same_except_character(op, np, c)
                    &&& np.characters@[c] == (Character { canvas_size: (clamped_side(w), clamped_side(h)), ..op.characters@[c] })
                    &&& *final(self) == (AppState { project: final(self).project, ..*old(self) })
                } else {
                    *final(self) == *old(self)
                }
            }),
    {
        let ci = match &self.project {
            Some(p) => {
                proof { lemma_first_index_of(character_names(p.characters@), char_name@); }
                p.character_index(char_name)
            },
            None => { return; },
        };
        let c = match ci {
            Some(c) => c,
            None => { return; },
        };
        let size = (clamp_side(w), clamp_side(h));
        let mut p = self.take_project();
        let ch = p.character_at_mut(c);
        ch.canvas_size = size;
        self.project = Some(p);
    }

    /// The states of the part selected in the editor of character `char_name`, each with
    /// whether it has an image.
    pub fn editor_state_rows(&self, char_name: &str) -> (r: Vec<(String, bool)>)
        ensures
            row_views(r@) == state_rows_of(*self, char_name@),
    {
        let mut rows: Vec<(String, bool)> = Vec::new();
        let p = match &self.project {
            Some(p) => p,
            None => { assert(row_views(rows@) =~= Seq::empty()); return rows; },
        };
        let pn = match &self.editor_selected_part {
            Some(n) => n,
            None => { assert(row_views(rows@) =~= Seq::empty()); return rows; },
        };
        let ch = match p.get_character(char_name) {
            Some(c) => c,
            None => { assert(row_views(rows@) =~= Seq::empty()); return rows; },
        };
        let part = match ch.get_part(pn.as_str()) {
            Some(x) => x,
            None => { assert(row_views(rows@) =~= Seq::empty()); return rows; },
        };
        let ghost want = part.states@.map_values(|st: State| (st.name@, state_has_images(st)));
        let mut i: usize = 0;
        while i < part.states.len()
            invariant
                i <= part.states.len(),
                want == part.states@.map_values(|st: State| (st.name@, state_has_images(st))),
                row_views(rows@) == want.take(i as int),
            decreases part.states.len() - i,
        {
            let ghost prev = rows@;
            let row = (part.states[i].name.clone(), part.states[i].has_images());
            rows.push(row);
            assert(row_views(rows@) =~= row_views(prev).push((row.0@, row.1)));
            assert(want.take(i as int + 1) =~= want.take(i as int).push(want[i as int]));
            i = i + 1;
        }
        assert(want.take(i as int) =~= want);
        rows
    }

    /// The rotation slots the editor's wheel shows: each rotation of the shown state (see
    /// `wheel_state`) by increasing angle, with whether it holds an image; none without one.
    pub fn editor_wheel_slots(&self, char_name: &str) -> (r: Vec<(u16, bool)>)
        ensures
            match wheel_state(*self, char_name@) {
                Some(st) => slots_of(st.rotations@, r@),
                None => r@.len() == 0,
            },
    {
        let p = match &self.project {
            Some(p) => p,
            None => { return Vec::new(); },
        };
        let pn = match &self.editor_selected_part {
            Some(n) => n,
            None => { return Vec::new(); },
        };
        let ch = match p.get_character(char_name) {
            Some(c) => c,
            None => { return Vec::new(); },
        };
        let part = match ch.get_part(pn.as_str()) {
            Some(x) => x,
            None => { return Vec::new(); },
        };
        let name: &str = match &self.editor_selected_state {
            Some(n) => n.as_str(),
            None => {
                if part.states.len() == 0 {
                    return Vec::new();
                }
                part.states[0].name.as_str()
            },
        };
        match part.get_state(name) {
            Some(st) => st.rotation_slots(),
            None => Vec::new(),
        }
    }

    /// Selects part `name` in the character editor, with no state selected.
    pub fn select_editor_part(&mut self, name: &str)
        ensures
            final(self).editor_selected_part matches Some(n) && n@ == name@,
            *final(self) == (AppState { editor_selected_part: final(self).editor_selected_part,
                editor_selected_state: None, ..*old(self) }),
    {
        self.editor_selected_part = Some(name.to_owned());
        self.editor_selected_state = None;
    }

    /// Selects state `name` in the character editor.
    pub fn select_editor_state(&mut self, name: &str)
        ensures
            final(self).editor_selected_state matches Some(n) && n@ == name@,
            *final(self) == (AppState { editor_selected_state: final(self).editor_selected_state, ..*old(self) }),
    {
        self.editor_selected_state = Some(name.to_owned());
    }

    /// Notes a click on the rotation slot at `angle`, whose image is to be picked next.
    pub fn request_rotation_import(&mut self, angle: u16)
        ensures
            *final(self) == (AppState {
                dialogs: crate::session::Dialogs { pending_rotation_import: Some(angle), ..old(self).dialogs },
                ..*old(self) }),
    {
        self.dialogs.pending_rotation_import = Some(angle);
    }

    /// Puts `data` into the rotation at `angle` of the state selected in the editor of
    /// character `ch` ("default" when none is).
    fn store_rotation_image(&mut self, ch: &str, angle: u16, data: String) -> (status: Option<String>)
        ensures
            rotation_stored(old(self).project, final(self).project, ch@, old(self).editor_selected_part,
                old(self).editor_selected_state, angle, data, status),
            *final(self) == (AppState { project: final(self).project, ..*old(self) }),
    {
        proof {
            reveal_strlit("default");
            reveal(rotation_stored);
        }
        let part = match &self.editor_selected_part {
            Some(p) => p.clone(),
            None => { return None; },
        };
        let state_name = match &self.editor_selected_state {
            Some(s) => s.clone(),
            None => "default".to_owned(),
        };
        match &mut self.project {
            Some(p) => {
                if p.set_rotation_image(ch, part.as_str(), state_name.as_str(), angle, data) {
                    let mut m = "Imported image for ".to_owned();
                    m.append(decimal_string(angle as u128).as_str());
                    m.append("°");
                    Some(m)
                } else {
                    None
                }
            },
            None => None,
        }
    }

    /// Ends a rotation import started from the editor once an image file was picked and read:
    /// `imported` holds the image as base64, or why it could not be read. With the editor of a
    /// character open and a part selected, the image goes to the rotation at `angle` of the
    /// selected state ("default" when none is). The pending import is dropped. Returns the
    /// status message, if any.
    pub fn finish_rotation_import(&mut self, angle: u16, imported: Result<String, String>) -> (status: Option<String>)
        ensures
            final(self).dialogs == (crate::session::Dialogs { pending_rotation_import: None, ..old(self).dialogs }),
            !(old(self).active_tab is CharacterEditor) ==> final(self).project == old(self).project && status is None,
            old(self).active_tab matches ActiveTab::CharacterEditor(ch) ==> match imported {
                Err(e) => final(self).project == old(self).project
                    && (status matches Some(m) && m@ == "Import failed: "@ + e@),
                Ok(data) => rotation_stored(old(self).project, final(self).project, ch@, old(self).editor_selected_part,
                    old(self).editor_selected_state, angle, data, status),
            },
            *final(self) == (AppState { project: final(self).project, dialogs: final(self).dialogs, ..*old(self) }),
    {
        proof { reveal_strlit("Import failed: "); }
        let status = match &self.active_tab {
            ActiveTab::CharacterEditor(n) => {
                let ch = n.clone();
                match imported {
                    Err(e) => {
                        let mut m = "Import failed: ".to_owned();
                        m.append(e.as_str());
                        Some(m)
                    },
                    Ok(data) => self.store_rotation_image(ch.as_str(), angle, data),
                }
            },
            ActiveTab::Canvas => None,
        };
        self.dialogs.pending_rotation_import = None;
        status
    }
}

} // verus!
