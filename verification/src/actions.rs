use vstd::prelude::*;
use vstd::string::StringExecFns;
use crate::model::{Animation, Character, Part, State, RotationMode, character_equiv, is_blank_frame, first_index_of, lemma_first_index_of, part_names};
use crate::project::{Project, character_names};
use crate::types::ActiveTab;
use crate::edit::{same_except_character, same_except_animation, same_except_frame_parts, parts_at, without_id};
use crate::session::{AppState, Dialogs};
use crate::text::{decimal, decimal_string, join};

verus! {

/// `s` without the characters called `name`, order kept.
pub open spec fn without_named_characters(s: Seq<Character>, name: Seq<char>) -> Seq<Character>
    decreases s.len(),
{
    if s.len() == 0 {
        Seq::empty()
    } else if s.last().name@ == name {
        without_named_characters(s.drop_last(), name)
    } else {
        without_named_characters(s.drop_last(), name).push(s.last())
    }
}

/// `s` without the parts called `name`, order kept.
pub open spec fn without_named_parts(s: Seq<Part>, name: Seq<char>) -> Seq<Part>
    decreases s.len(),
{
    if s.len() == 0 {
        Seq::empty()
    } else if s.last().name@ == name {
        without_named_parts(s.drop_last(), name)
    } else {
        without_named_parts(s.drop_last(), name).push(s.last())
    }
}

/// `"prefix'name'"`: the status message naming `name` in quotes.
pub open spec fn quoted_message(prefix: Seq<char>, name: Seq<char>) -> Seq<char> {
    prefix + "'"@ + name + "'"@
}

/// The status message `prefix` followed by `name` in single quotes.
pub fn quoted(prefix: &str, name: &str) -> (r: String)
    ensures
        r@ == quoted_message(prefix@, name@),
{
    let mut s = prefix.to_owned();
    s.append("'");
    s.append(name);
    s.append("'");
    s
}

/// Whether `a` holds text equal to `b`.
pub fn option_names(a: &Option<String>, b: &str) -> (r: bool)
    ensures
        r == (a matches Some(n) && n@ == b@),
{
    match a {
        Some(n) => *n == b.to_owned(),
        None => false,
    }
}

/// Whether `tab` is the character editor of `name`.
pub fn is_editor_of(tab: &ActiveTab, name: &str) -> (r: bool)
    ensures
        r == (*tab matches ActiveTab::CharacterEditor(t) && t@ == name@),
{
    match tab {
        ActiveTab::CharacterEditor(t) => *t == name.to_owned(),
        ActiveTab::Canvas => false,
    }
}

/// Removes the characters called `name` from `v`.
fn remove_named_characters(v: &mut Vec<Character>, name: &str)
    ensures
        final(v)@ == without_named_characters(old(v)@, name@),
{
    let ghost orig = v@;
    let key = name.to_owned();
    let mut rest: Vec<Character> = Vec::new();
    std::mem::swap(&mut rest, v);
    assert(orig.skip(0) =~= orig);
    let n = rest.len();
    assert(orig.len() == n);
    let mut j: usize = 0;
    while rest.len() > 0
        invariant
            j <= orig.len(),
            orig.len() <= usize::MAX,
            key@ == name@,
            rest@ == orig.skip(j as int),
            v@ == without_named_characters(orig.take(j as int), name@),
        decreases rest.len(),
    {
        let c = rest.remove(0);
        assert(c == orig[j as int]);
        assert(orig.take(j as int + 1).drop_last() =~= orig.take(j as int));
        if c.name != key {
            v.push(c);
        }
        assert(rest@ =~= orig.skip(j as int + 1));
        j = j + 1;
    }
    assert(orig.take(j as int) =~= orig);
}

/// Removes the parts called `name` from `v`.
fn remove_named_parts(v: &mut Vec<Part>, name: &str)
    ensures
        final(v)@ == without_named_parts(old(v)@, name@),
{
    let ghost orig = v@;
    let key = name.to_owned();
    let mut rest: Vec<Part> = Vec::new();
    std::mem::swap(&mut rest, v);
    assert(orig.skip(0) =~= orig);
    let n = rest.len();
    assert(orig.len() == n);
    let mut j: usize = 0;
    while rest.len() > 0
        invariant
            j <= orig.len(),
            orig.len() <= usize::MAX,
            key@ == name@,
            rest@ == orig.skip(j as int),
            v@ == without_named_parts(orig.take(j as int), name@),
        decreases rest.len(),
    {
        let c = rest.remove(0);
        assert(c == orig[j as int]);
        assert(orig.take(j as int + 1).drop_last() =~= orig.take(j as int));
        if c.name != key {
            v.push(c);
        }
        assert(rest@ =~= orig.skip(j as int + 1));
        j = j + 1;
    }
    assert(orig.take(j as int) =~= orig);
}

impl AppState {
    /// Clears the active character.
    fn clear_active_character(&mut self)
        ensures
            *final(self) == (AppState { active_character: None, ..*old(self) }),
    {
        self.active_character = None;
    }

    /// Shows the canvas tab.
    fn show_canvas_tab(&mut self)
        ensures
            *final(self) == (AppState { active_tab: ActiveTab::Canvas, ..*old(self) }),
    {
        self.active_tab = ActiveTab::Canvas;
    }

    /// Deletes the characters called `name`. When the active character was one of them there
    /// is no active character anymore and the canvas tab is shown; an editor tab of that name
    /// closes too. Returns the status message, or `None` when no project is open.
    pub fn delete_character(&mut self, name: &str) -> (status: Option<String>)
        ensures
            character_deleted(*old(self), *final(self), name@, status),
    {
        proof { reveal(character_deleted); }
        if self.project.is_none() {
            return None;
        }
        let was_active = option_names(&self.active_character, name);
        let was_open = is_editor_of(&self.active_tab, name);
        let mut p = self.take_project();
        remove_named_characters(&mut p.characters, name);
        self.project = Some(p);
        if was_active {
            self.clear_active_character();
        }
        if was_active || was_open {
            self.show_canvas_tab();
        }
        Some(quoted("Deleted character ", name))
    }
}

/// Index of the first character called `name` in `p`, or -1.
pub open spec fn char_index(p: Project, name: Seq<char>) -> int {
    first_index_of(character_names(p.characters@), name)
}

impl AppState {
    /// Deletes the parts called `part_name` of the first character called `char_name`; the
    /// part selected in the character editor is cleared when it was one of them. Returns the
    /// status message, or `None` when there is no project or no such character.
    pub fn delete_part(&mut self, char_name: &str, part_name: &str) -> (status: Option<String>)
        ensures
            part_deleted(*old(self), *final(self), char_name@, part_name@, status),
    {
        proof { reveal(part_deleted); }
        let ci = match &self.project {
            Some(p) => {
                proof { lemma_first_index_of(character_names(p.characters@), char_name@); }
                p.character_index(char_name)
            },
            None => None,
        };
        let c = match ci {
            Some(c) => c,
            None => { return None; },
        };
        let clear = option_names(&self.editor_selected_part, part_name);
        let mut p = self.take_project();
        let ch = p.character_at_mut(c);
        remove_named_parts(&mut ch.parts, part_name);
        self.project = Some(p);
        if clear {
            self.editor_selected_part = None;
        }
        Some(quoted("Deleted part ", part_name))
    }

    /// Deletes animation `anim_index` of the first character called `char_name` when it exists;
    /// the current animation index is pulled back onto the last animation when it points past
    /// the end, and the first frame becomes current. Returns the status message, or `None`
    /// when nothing was deleted.
    pub fn delete_animation(&mut self, char_name: &str, anim_index: usize, anim_name: &str) -> (status: Option<String>)
        ensures
            animation_deleted(*old(self), *final(self), char_name@, anim_index, anim_name@, status),
    {
        proof { reveal(animation_deleted); }
        let ci = match &self.project {
            Some(p) => {
                proof { lemma_first_index_of(character_names(p.characters@), char_name@); }
                match p.character_index(char_name) {
                    Some(c) => if anim_index < p.characters[c].animations.len() { Some(c) } else { None },
                    None => None,
                }
            },
            None => None,
        };
        let c = match ci {
            Some(c) => c,
            None => { return None; },
        };
        let mut p = self.take_project();
        let ch = p.character_at_mut(c);
        ch.animations.remove(anim_index);
        let new_len = ch.animations.len();
        self.project = Some(p);
        if self.current_animation >= new_len && new_len > 0 {
            self.current_animation = new_len - 1;
        }
        self.current_frame = 0;
        Some(quoted("Deleted animation ", anim_name))
    }
}

impl AppState {
    /// Deletes frame `frame_index` of animation `anim_index` of the first character called
    /// `char_name`, unless it is the only frame. After a deletion the current frame is pulled
    /// back onto the last frame when it points past the end and the selection is cleared.
    /// Returns the status message; `None` when the animation or frame does not exist.
    pub fn delete_frame(&mut self, char_name: &str, anim_index: usize, frame_index: usize) -> (status: Option<String>)
        ensures
            frame_deleted(*old(self), *final(self), char_name@, anim_index, frame_index, status),
    {
        proof { reveal(frame_deleted); }
        let found = match &self.project {
            Some(p) => {
                proof { lemma_first_index_of(character_names(p.characters@), char_name@); }
                match p.character_index(char_name) {
                    Some(c) => if anim_index < p.characters[c].animations.len() {
                        Some((c, p.characters[c].animations[anim_index].frames.len()))
                    } else {
                        None
                    },
                    None => None,
                }
            },
            None => None,
        };
        let (c, n) = match found {
            Some(x) => x,
            None => { return None; },
        };
        if frame_index < n && n > 1 {
            let mut p = self.take_project();
            let anim = p.animation_at_mut(c, anim_index);
            anim.frames.remove(frame_index);
            self.project = Some(p);
            if self.current_frame >= n - 1 {
                self.current_frame = n - 2;
            }
            self.selected_part_id = None;
            let mut m = "Deleted frame ".to_owned();
            m.append(decimal_string(frame_index as u128 + 1).as_str());
            Some(m)
        } else if n == 1 {
            proof { reveal_strlit("Cannot delete the only frame"); }
            Some("Cannot delete the only frame".to_owned())
        } else {
            None
        }
    }

    /// Deletes the layers of ID `layer_id` from the current frame; the selection is cleared
    /// when it was that layer. Returns the status message, or `None` without a current frame.
    pub fn delete_layer(&mut self, layer_id: u64, layer_name: &str) -> (status: Option<String>)
        ensures
            layer_deleted(*old(self), *final(self), layer_id, layer_name@, status),
    {
        proof { reveal(layer_deleted); }
        let (c, a, f) = match self.current_frame_indices() {
            Some(x) => x,
            None => { return None; },
        };
        let mut p = self.take_project();
        p.remove_layers_with_id(c, a, f, layer_id);
        self.project = Some(p);
        if self.selected_part_id == Some(layer_id) {
            self.selected_part_id = None;
        }
        Some(quoted("Deleted layer ", layer_name))
    }

    /// Deletes the selected layer from the current frame and clears the selection.
    pub fn delete_selected_part(&mut self)
        ensures
            old(self).selected_part_id is None ==> *final(self) == *old(self),
            old(self).selected_part_id is Some ==> {
                &&& final(self).selected_part_id is None
                &&& if old(self).has_frame() {
                    let c = old(self).active_index();
                    let a = old(self).current_animation as int;
                    let f = old(self).current_frame as int;
                    &&& final(self).project is Some
                    &&& same_except_frame_parts(old(self).the_project(), final(self).the_project(), c, a, f)
                    &&& parts_at(final(self).the_project(), c, a, f)
                        == without_id(parts_at(old(self).the_project(), c, a, f), old(self).selected_part_id.unwrap())
                } else {
                    final(self).project == old(self).project
                }
            },
            *final(self) == (AppState { project: final(self).project, selected_part_id: final(self).selected_part_id, ..*old(self) }),
    {
        let id = match self.selected_part_id {
            Some(id) => id,
            None => { return; },
        };
        match self.current_frame_indices() {
            Some((c, a, f)) => {
                let mut p = self.take_project();
                p.remove_layers_with_id(c, a, f, id);
                self.project = Some(p);
            },
            None => {},
        }
        self.selected_part_id = None;
    }
}

/// `"prefix" + name`, the status message for something created.
pub open spec fn plain_message(prefix: Seq<char>, name: Seq<char>) -> Seq<char> {
    prefix + name
}

impl AppState {
    /// Renames the first character called `char_name` to `new_name`; the active character and
    /// an editor tab follow the rename. Returns the status message, or `None` when there is no
    /// such character.
    pub fn rename_character(&mut self, char_name: &str, new_name: &str) -> (status: Option<String>)
        ensures
            character_renamed(*old(self), *final(self), char_name@, new_name@, status),
    {
        proof { reveal(character_renamed); }
        let ci = match &self.project {
            Some(p) => {
                proof { lemma_first_index_of(character_names(p.characters@), char_name@); }
                p.character_index(char_name)
            },
            None => None,
        };
        let c = match ci {
            Some(c) => c,
            None => { return None; },
        };
        let was_active = option_names(&self.active_character, char_name);
        let was_open = is_editor_of(&self.active_tab, char_name);
        let mut p = self.take_project();
        let ch = p.character_at_mut(c);
        ch.name = new_name.to_owned();
        self.project = Some(p);
        if was_active {
            self.active_character = Some(new_name.to_owned());
        }
        if was_open {
            self.active_tab = ActiveTab::CharacterEditor(new_name.to_owned());
        }
        Some(quoted("Renamed character to ", new_name))
    }

    /// Renames the first part called `part_name` of the first character called `char_name`,
    /// and selects it in the character editor. Returns the status message, or `None` when
    /// there is no such part.
    pub fn rename_part(&mut self, char_name: &str, part_name: &str, new_name: &str) -> (status: Option<String>)
        ensures
            part_renamed(*old(self), *final(self), char_name@, part_name@, new_name@, status),
    {
        proof { reveal(part_renamed); }
        let found = match &self.project {
            Some(p) => {
                proof { lemma_first_index_of(character_names(p.characters@), char_name@); }
                match p.character_index(char_name) {
                    Some(c) => {
                        proof { lemma_first_index_of(part_names(p.characters@[c as int].parts@), part_name@); }
                        match p.characters[c].part_index(part_name) {
                            Some(k) => Some((c, k)),
                            None => None,
                        }
                    },
                    None => None,
                }
            },
            None => None,
        };
        let (c, k) = match found {
            Some(x) => x,
            None => { return None; },
        };
        let mut p = self.take_project();
        let ghost before = p.characters@[c as int].parts@;
        let ch = p.character_at_mut(c);
        let mut part = ch.parts.remove(k);
        part.name = new_name.to_owned();
        ch.parts.insert(k, part);
        assert(p.characters@[c as int].parts@ =~= before.update(k as int, p.characters@[c as int].parts@[k as int]));
        self.project = Some(p);
        self.editor_selected_part = Some(new_name.to_owned());
        Some(quoted("Renamed part to ", new_name))
    }

    /// Renames animation `anim_index` of the first character called `char_name`. Returns the
    /// status message, or `None` when there is no such animation.
    pub fn rename_animation(&mut self, char_name: &str, anim_index: usize, new_name: &str) -> (status: Option<String>)
        ensures
            animation_renamed(*old(self), *final(self), char_name@, anim_index, new_name@, status),
    {
        proof { reveal(animation_renamed); }
        let ci = match &self.project {
            Some(p) => {
                proof { lemma_first_index_of(character_names(p.characters@), char_name@); }
                match p.character_index(char_name) {
                    Some(c) => if anim_index < p.characters[c].animations.len() { Some(c) } else { None },
                    None => None,
                }
            },
            None => None,
        };
        let c = match ci {
            Some(c) => c,
            None => { return None; },
        };
        let mut p = self.take_project();
        let anim = p.animation_at_mut(c, anim_index);
        anim.name = new_name.to_owned();
        self.project = Some(p);
        Some(quoted("Renamed animation to ", new_name))
    }
}

impl AppState {
    /// "Create" in the new-animation dialog: with a non-empty name, a new animation of that
    /// name is appended to the active character and becomes current at its first frame, and
    /// the dialog closes. With an empty name nothing happens.
    pub fn confirm_new_animation(&mut self)
        ensures
            old(self).dialogs.new_animation_name@.len() == 0 ==> *final(self) == *old(self),
            old(self).dialogs.new_animation_name@.len() > 0 ==> {
                &&& !final(self).dialogs.show_new_animation_dialog
                &&& final(self).dialogs == (Dialogs { show_new_animation_dialog: false, ..old(self).dialogs })
                &&& if old(self).active_index() >= 0 {
                    let c = old(self).active_index();
                    let op = old(self).the_project();
                    let np = final(self).the_project();
                    let n = op.characters@[c].animations.len();
                    &&& final(self).project is Some
                    &&& same_except_character(op, np, c)
                    &&& np.characters@[c] == (Character { animations: np.characters@[c].animations, ..op.characters@[c] })
                    &&& np.characters@[c].animations.len() == n + 1
                    &&& np.characters@[c].animations@.take(n as int) == op.characters@[c].animations@
                    &&& np.characters@[c].animations@[n as int].name@ == old(self).dialogs.new_animation_name@
                    &&& np.characters@[c].animations@[n as int].frames.len() == 1
                    &&& is_blank_frame(np.characters@[c].animations@[n as int].frames@[0])
                    &&& np.characters@[c].animations@[n as int].fps == 12
                    &&& final(self).current_animation == n
                    &&& final(self).current_frame == 0
                } else {
                    &&& final(self).project == old(self).project
                    &&& final(self).current_animation == old(self).current_animation
                    &&& final(self).current_frame == old(self).current_frame
                }
            },
            *final(self) == (AppState { project: final(self).project, current_animation: final(self).current_animation,
                current_frame: final(self).current_frame, dialogs: final(self).dialogs, ..*old(self) }),
    {
        if self.dialogs.new_animation_name.as_str().is_empty() {
            return;
        }
        let name = self.dialogs.new_animation_name.clone();
        self.add_animation_to_active(name.as_str());
        self.dialogs.show_new_animation_dialog = false;
    }

    /// Appends a new animation called `name` to the active character and makes it current at
    /// its first frame; nothing happens without an active character.
    pub fn add_animation_to_active(&mut self, name: &str)
        ensures
            if old(self).active_index() >= 0 {
                let c = old(self).active_index();
                let op = old(self).the_project();
                let np = final(self).the_project();
                let n = op.characters@[c].animations.len();
                &&& final(self).project is Some
                &&& same_except_character(op, np, c)
                &&& np.characters@[c] == (Character { animations: np.characters@[c].animations, ..op.characters@[c] })
                &&& np.characters@[c].animations.len() == n + 1
                &&& np.characters@[c].animations@.take(n as int) == op.characters@[c].animations@
                &&& np.characters@[c].animations@[n as int].name@ == name@
                &&& np.characters@[c].animations@[n as int].frames.len() == 1
                &&& is_blank_frame(np.characters@[c].animations@[n as int].frames@[0])
                &&& np.characters@[c].animations@[n as int].fps == 12
                &&& final(self).current_animation == n
                &&& final(self).current_frame == 0
            } else {
                *final(self) == *old(self)
            },
            *final(self) == (AppState { project: final(self).project, current_animation: final(self).current_animation,
                current_frame: final(self).current_frame, ..*old(self) }),
    {
        match self.active_character_index() {
            Some(c) => {
                let mut p = self.take_project();
                let ch = p.character_at_mut(c);
                ch.add_animation(Animation::new(name));
                let n = ch.animations.len();
                self.project = Some(p);
                self.current_animation = n - 1;
                self.current_frame = 0;
            },
            None => {},
        }
    }

    /// "Create" in the new-character dialog: with a non-empty name and a project open, a new
    /// character of that name is added, becomes active at its first animation and frame, and
    /// opens in the character editor; with a non-empty name the dialog closes. Returns the
    /// status message when a character was created.
    pub fn confirm_new_character(&mut self) -> (status: Option<String>)
        ensures
            old(self).dialogs.new_character_name@.len() == 0 ==> *final(self) == *old(self) && status is None,
            old(self).dialogs.new_character_name@.len() > 0 ==> {
                let name = old(self).dialogs.new_character_name@;
                &&& final(self).dialogs == (Dialogs { show_new_character_dialog: false, ..old(self).dialogs })
                &&& if old(self).project is Some {
                    let op = old(self).the_project();
                    let np = final(self).the_project();
                    let n = op.characters.len();
                    &&& final(self).project is Some
                    &&& np == (Project { characters: np.characters, ..op })
                    &&& np.characters.len() == n + 1
                    &&& np.characters@.take(n as int) == op.characters@
                    &&& np.characters@[n as int].name@ == name
                    &&& np.characters@[n as int].parts@.len() == 0
                    &&& np.characters@[n as int].animations.len() == 1
                    &&& np.characters@[n as int].canvas_size == (64u32, 64u32)
                    &&& (final(self).active_character matches Some(a) && a@ == name)
                    &&& final(self).current_animation == 0 && final(self).current_frame == 0
                    &&& final(self).needs_zoom_fit
                    &&& (final(self).active_tab matches ActiveTab::CharacterEditor(t) && t@ == name)
                    &&& (status matches Some(m) && m@ == plain_message("Created character: "@, name))
                } else {
                    &&& final(self).project is None
                    &&& final(self).active_character == old(self).active_character
                    &&& final(self).current_animation == old(self).current_animation
                    &&& final(self).current_frame == old(self).current_frame
                    &&& final(self).needs_zoom_fit == old(self).needs_zoom_fit
                    &&& final(self).active_tab == old(self).active_tab
                    &&& status is None
                }
            },
            *final(self) == (AppState { project: final(self).project, active_character: final(self).active_character,
                current_animation: final(self).current_animation, current_frame: final(self).current_frame,
                needs_zoom_fit: final(self).needs_zoom_fit, active_tab: final(self).active_tab,
                dialogs: final(self).dialogs, ..*old(self) }),
    {
        if self.dialogs.new_character_name.as_str().is_empty() {
            return None;
        }
        let name = self.dialogs.new_character_name.clone();
        let status = self.add_new_character(name.as_str());
        self.dialogs.show_new_character_dialog = false;
        status
    }

    /// Adds a new character called `name`, makes it active at its first animation and frame
    /// and opens it in the character editor; nothing happens without a project. Returns the
    /// status message when a character was added.
    pub fn add_new_character(&mut self, name: &str) -> (status: Option<String>)
        ensures
            if old(self).project is Some {
                let op = old(self).the_project();
                let np = final(self).the_project();
                let n = op.characters.len();
                &&& final(self).project is Some
                &&& np == (Project { characters: np.characters, ..op })
                &&& np.characters.len() == n + 1
                &&& np.characters@.take(n as int) == op.characters@
                &&& np.characters@[n as int].name@ == name@
                &&& np.characters@[n as int].parts@.len() == 0
                &&& np.characters@[n as int].animations.len() == 1
                &&& np.characters@[n as int].canvas_size == (64u32, 64u32)
                &&& (final(self).active_character matches Some(a) && a@ == name@)
                &&& final(self).current_animation == 0 && final(self).current_frame == 0
                &&& final(self).needs_zoom_fit
                &&& (final(self).active_tab matches ActiveTab::CharacterEditor(t) && t@ == name@)
                &&& (status matches Some(m) && m@ == plain_message("Created character: "@, name@))
            } else {
                *final(self) == *old(self) && status is None
            },
            *final(self) == (AppState { project: final(self).project, active_character: final(self).active_character,
                current_animation: final(self).current_animation, current_frame: final(self).current_frame,
                needs_zoom_fit: final(self).needs_zoom_fit, active_tab: final(self).active_tab, ..*old(self) }),
    {
        if self.project.is_none() {
            return None;
        }
        let mut p = self.take_project();
        p.add_character(Character::new(name));
        self.project = Some(p);
        self.active_character = Some(name.to_owned());
        self.current_animation = 0;
        self.current_frame = 0;
        self.needs_zoom_fit = true;
        self.active_tab = ActiveTab::CharacterEditor(name.to_owned());
        Some(join("Created character: ", name))
    }
}

/// The status message of a clone of `source` called `name`.
pub open spec fn clone_message(source: Seq<char>, name: Seq<char>) -> Seq<char> {
    "Cloned '"@ + source + "' as '"@ + name + "'"@
}

impl AppState {
    /// Adds a copy of the first character called `source` under the name `name`, makes it
    /// active at its first animation and frame. Nothing happens without a project or such a
    /// character. Returns the status message when a copy was added.
    pub fn add_clone(&mut self, source: &str, name: &str) -> (status: Option<String>)
        ensures
            ({
                let op = old(self).the_project();
                let s = char_index(op, source@);
                if old(self).project is Some && s >= 0 {
                    let np = final(self).the_project();
                    let n = op.characters.len();
                    &&& final(self).project is Some
                    &&& np == (Project { characters: np.characters, ..op })
                    &&& np.characters.len() == n + 1
                    &&& np.characters@.take(n as int) == op.characters@
                    &&& np.characters@[n as int].name@ == name@
                    &&& character_equiv(op.characters@[s], Character { name: op.characters@[s].name, ..np.characters@[n as int] })
                    &&& (final(self).active_character matches Some(a) && a@ == name@)
                    &&& final(self).current_animation == 0 && final(self).current_frame == 0
                    &&& final(self).needs_zoom_fit
                    &&& (status matches Some(m) && m@ == clone_message(source@, name@))
                } else {
                    *final(self) == *old(self) && status is None
                }
            }),
            *final(self) == (AppState { project: final(self).project, active_character: final(self).active_character,
                current_animation: final(self).current_animation, current_frame: final(self).current_frame,
                needs_zoom_fit: final(self).needs_zoom_fit, ..*old(self) }),
    {
        let si = match &self.project {
            Some(p) => {
                proof { lemma_first_index_of(character_names(p.characters@), source@); }
                p.character_index(source)
            },
            None => None,
        };
        let s_idx = match si {
            Some(i) => i,
            None => { return None; },
        };
        let mut p = self.take_project();
        let mut copy = p.characters[s_idx].clone();
        copy.name = name.to_owned();
        p.add_character(copy);
        self.project = Some(p);
        self.active_character = Some(name.to_owned());
        self.current_animation = 0;
        self.current_frame = 0;
        self.needs_zoom_fit = true;
        let mut m = "Cloned '".to_owned();
        m.append(source);
        m.append("' as '");
        m.append(name);
        m.append("'");
        Some(m)
    }

    /// Whether the clone dialog may clone: the new name is non-empty and no character has it.
    pub fn clone_name_valid(&self) -> (r: bool)
        ensures
            r == (self.dialogs.clone_character_name@.len() > 0 && !(self.project is Some
                && character_names(self.the_project().characters@).contains(self.dialogs.clone_character_name@))),
    {
        if self.dialogs.clone_character_name.as_str().is_empty() {
            return false;
        }
        match &self.project {
            Some(p) => {
                proof { lemma_first_index_of(character_names(p.characters@), self.dialogs.clone_character_name@); }
                p.get_character(self.dialogs.clone_character_name.as_str()).is_none()
            },
            None => true,
        }
    }

    /// "Clone" in the clone dialog: when a source is set and the new name is valid, the source
    /// is cloned under the new name, the dialog closes and the source is cleared. Otherwise
    /// nothing happens. Returns the status message when a copy was added.
    pub fn confirm_clone_character(&mut self) -> (status: Option<String>)
        ensures
            ({
                let valid = old(self).dialogs.clone_character_name@.len() > 0 && !(old(self).project is Some
                    && character_names(old(self).the_project().characters@).contains(old(self).dialogs.clone_character_name@));
                if old(self).dialogs.clone_source_character is Some && valid {
                    let op = old(self).the_project();
                    let s = char_index(op, old(self).dialogs.clone_source_character.unwrap()@);
                    let name = old(self).dialogs.clone_character_name@;
                    &&& final(self).dialogs == (Dialogs { show_clone_character_dialog: false, clone_source_character: None,
                        ..old(self).dialogs })
                    &&& if old(self).project is Some && s >= 0 {
                        let np = final(self).the_project();
                        let n = op.characters.len();
                        &&& final(self).project is Some
                        &&& np == (Project { characters: np.characters, ..op })
                        &&& np.characters.len() == n + 1
                        &&& np.characters@.take(n as int) == op.characters@
                        &&& np.characters@[n as int].name@ == name
                        &&& character_equiv(op.characters@[s], Character { name: op.characters@[s].name, ..np.characters@[n as int] })
                        &&& (final(self).active_character matches Some(a) && a@ == name)
                        &&& final(self).current_animation == 0 && final(self).current_frame == 0
                        &&& final(self).needs_zoom_fit
                        &&& (status matches Some(m) && m@ == clone_message(old(self).dialogs.clone_source_character.unwrap()@, name))
                    } else {
                        &&& final(self).project == old(self).project
                        &&& final(self).active_character == old(self).active_character
                        &&& final(self).current_animation == old(self).current_animation
                        &&& final(self).current_frame == old(self).current_frame
                        &&& final(self).needs_zoom_fit == old(self).needs_zoom_fit
                        &&& status is None
                    }
                } else {
                    *final(self) == *old(self) && status is None
                }
            }),
            *final(self) == (AppState { project: final(self).project, active_character: final(self).active_character,
                current_animation: final(self).current_animation, current_frame: final(self).current_frame,
                needs_zoom_fit: final(self).needs_zoom_fit, dialogs: final(self).dialogs, ..*old(self) }),
    {
        if self.dialogs.clone_source_character.is_none() || !self.clone_name_valid() {
            return None;
        }
        let source = self.dialogs.clone_source_character.clone().unwrap();
        let name = self.dialogs.clone_character_name.clone();
        let status = self.add_clone(source.as_str(), name.as_str());
        self.dialogs.show_clone_character_dialog = false;
        self.dialogs.clone_source_character = None;
        status
    }
}

impl AppState {
    /// Adds a new part called `name`, with one default state, to the character open in the
    /// character editor, and selects it there. Nothing happens unless that tab is open on an
    /// existing character. Returns the status message when a part was added.
    pub fn add_part_to_edited(&mut self, name: &str) -> (status: Option<String>)
        ensures
            ({
                let op = old(self).the_project();
                let c = match old(self).active_tab {
                    ActiveTab::CharacterEditor(t) => if old(self).project is Some { char_index(op, t@) } else { -1 },
                    ActiveTab::Canvas => -1,
                };
                if c >= 0 {
                    let np = final(self).the_project();
                    let n = op.characters@[c].parts.len();
                    &&& final(self).project is Some
                    &&& same_except_character(op, np, c)
                    &&& np.characters@[c] == (Character { parts: np.characters@[c].parts, ..op.characters@[c] })
                    &&& np.characters@[c].parts.len() == n + 1
                    &&& np.characters@[c].parts@.take(n as int) == op.characters@[c].parts@
                    &&& np.characters@[c].parts@[n as int].name@ == name@
                    &&& np.characters@[c].parts@[n as int].states.len() == 1
                    &&& np.characters@[c].parts@[n as int].states@[0].name@ == "default"@
                    &&& (final(self).editor_selected_part matches Some(e) && e@ == name@)
                    &&& final(self).editor_selected_state is None
                    &&& (status matches Some(m) && m@ == plain_message("Created part: "@, name@))
                } else {
                    *final(self) == *old(self) && status is None
                }
            }),
            *final(self) == (AppState { project: final(self).project, editor_selected_part: final(self).editor_selected_part,
                editor_selected_state: final(self).editor_selected_state, ..*old(self) }),
    {
        let ci = match &self.active_tab {
            ActiveTab::CharacterEditor(t) => match &self.project {
                Some(p) => {
                    proof { lemma_first_index_of(character_names(p.characters@), t@); }
                    p.character_index(t.as_str())
                },
                None => None,
            },
            ActiveTab::Canvas => None,
        };
        let c = match ci {
            Some(c) => c,
            None => { return None; },
        };
        let mut p = self.take_project();
        let ch = p.character_at_mut(c);
        ch.add_part(Part::new(name));
        self.project = Some(p);
        self.editor_selected_part = Some(name.to_owned());
        self.editor_selected_state = None;
        Some(join("Created part: ", name))
    }

    /// "Create" in the new-part dialog: with a non-empty name the part is added as
    /// `add_part_to_edited` does and the dialog closes; with an empty name nothing happens.
    pub fn confirm_new_part(&mut self) -> (status: Option<String>)
        ensures
            old(self).dialogs.new_part_name@.len() == 0 ==> *final(self) == *old(self) && status is None,
            old(self).dialogs.new_part_name@.len() > 0 ==>
                final(self).dialogs == (Dialogs { show_new_part_dialog: false, ..old(self).dialogs }),
            *final(self) == (AppState { project: final(self).project, editor_selected_part: final(self).editor_selected_part,
                editor_selected_state: final(self).editor_selected_state, dialogs: final(self).dialogs, ..*old(self) }),
    {
        if self.dialogs.new_part_name.as_str().is_empty() {
            return None;
        }
        let name = self.dialogs.new_part_name.clone();
        let status = self.add_part_to_edited(name.as_str());
        self.dialogs.show_new_part_dialog = false;
        status
    }

    /// Adds a new state called `name`, at 45-degree rotations, to the part selected in the
    /// character editor, and selects it. Nothing happens unless that tab is open on an
    /// existing character with the selected part. Returns the status message when a state
    /// was added.
    pub fn add_state_to_selected_part(&mut self, name: &str) -> (status: Option<String>)
        ensures
            ({
                let op = old(self).the_project();
                let c = match old(self).active_tab {
                    ActiveTab::CharacterEditor(t) => if old(self).project is Some { char_index(op, t@) } else { -1 },
                    ActiveTab::Canvas => -1,
                };
                let k = if c >= 0 && old(self).editor_selected_part is Some {
                    first_index_of(part_names(op.characters@[c].parts@), old(self).editor_selected_part.unwrap()@)
                } else { -1 };
                if k >= 0 {
                    let np = final(self).the_project();
                    let op_part = op.characters@[c].parts@[k];
                    let np_part = np.characters@[c].parts@[k];
                    &&& final(self).project is Some
                    &&& same_except_character(op, np, c)
                    &&& np.characters@[c] == (Character { parts: np.characters@[c].parts, ..op.characters@[c] })
                    &&& np.characters@[c].parts@ == op.characters@[c].parts@.update(k, np_part)
                    &&& np_part.name == op_part.name && np_part.default_z == op_part.default_z
                    &&& np_part.states.len() == op_part.states.len() + 1
                    &&& np_part.states@.take(op_part.states.len() as int) == op_part.states@
                    &&& np_part.states@.last().name@ == name@
                    &&& np_part.states@.last().rotation_mode == RotationMode::Deg45
                    &&& (final(self).editor_selected_state matches Some(e) && e@ == name@)
                    &&& (status matches Some(m) && m@ == plain_message("Created state: "@, name@))
                } else {
                    *final(self) == *old(self) && status is None
                }
            }),
            *final(self) == (AppState { project: final(self).project, editor_selected_state: final(self).editor_selected_state,
                ..*old(self) }),
    {
        let found = match &self.active_tab {
            ActiveTab::CharacterEditor(t) => match &self.project {
                Some(p) => {
                    proof { lemma_first_index_of(character_names(p.characters@), t@); }
                    match p.character_index(t.as_str()) {
                        Some(c) => match &self.editor_selected_part {
                            Some(pn) => {
                                proof { lemma_first_index_of(part_names(p.characters@[c as int].parts@), pn@); }
                                match p.characters[c].part_index(pn.as_str()) {
                                    Some(k) => Some((c, k)),
                                    None => None,
                                }
                            },
                            None => None,
                        },
                        None => None,
                    }
                },
                None => None,
            },
            ActiveTab::Canvas => None,
        };
        let (c, k) = match found {
            Some(x) => x,
            None => { return None; },
        };
        let mut p = self.take_project();
        let ch = p.character_at_mut(c);
        let mut part = ch.parts.remove(k);
        let ghost before = part;
        part.add_state(State::new(name, RotationMode::Deg45));
        ch.parts.insert(k, part);
        self.project = Some(p);
        self.editor_selected_state = Some(name.to_owned());
        Some(join("Created state: ", name))
    }

    /// "Create" in the new-state dialog: with a non-empty name the state is added as
    /// `add_state_to_selected_part` does and the dialog closes; with an empty name nothing happens.
    pub fn confirm_new_state(&mut self) -> (status: Option<String>)
        ensures
            old(self).dialogs.new_state_name@.len() == 0 ==> *final(self) == *old(self) && status is None,
            old(self).dialogs.new_state_name@.len() > 0 ==>
                final(self).dialogs == (Dialogs { show_new_state_dialog: false, ..old(self).dialogs }),
            *final(self) == (AppState { project: final(self).project, editor_selected_state: final(self).editor_selected_state,
                dialogs: final(self).dialogs, ..*old(self) }),
    {
        if self.dialogs.new_state_name.as_str().is_empty() {
            return None;
        }
        let name = self.dialogs.new_state_name.clone();
        let status = self.add_state_to_selected_part(name.as_str());
        self.dialogs.show_new_state_dialog = false;
        status
    }
}


/// `after` and `status` are what `delete_character` leaves of `before` and answers.
#[verifier::opaque]
pub open spec fn character_deleted(before: AppState, after: AppState, name: Seq<char>, status: Option<String>) -> bool {
    &&& (before.project is None ==> after == before && status is None)
    &&& (before.project is Some ==> {
            let op = before.the_project();
            let np = after.the_project();
            let was_active = before.active_character matches Some(n) && n@ == name;
            let was_open = before.active_tab matches ActiveTab::CharacterEditor(t) && t@ == name;
            &&& after.project is Some
            &&& np == (Project { characters: np.characters, ..op })
            &&& np.characters@ == without_named_characters(op.characters@, name)
            &&& after.active_character == if was_active { None } else { before.active_character }
            &&& after.active_tab == if was_active || was_open { ActiveTab::Canvas } else { before.active_tab }
            &&& status matches Some(m) && m@ == quoted_message("Deleted character "@, name)
        })
    &&& (after == (AppState { project: after.project, active_character: after.active_character,
            active_tab: after.active_tab, ..before }))
}

/// `after` and `status` are what `delete_part` leaves of `before` and answers.
#[verifier::opaque]
pub open spec fn part_deleted(before: AppState, after: AppState, char_name: Seq<char>, part_name: Seq<char>, status: Option<String>) -> bool {
    &&& ((before.project is None || char_index(before.the_project(), char_name) < 0)
            ==> after == before && status is None)
    &&& (before.project is Some && char_index(before.the_project(), char_name) >= 0 ==> {
            let c = char_index(before.the_project(), char_name);
            let op = before.the_project();
            let np = after.the_project();
            &&& after.project is Some
            &&& same_except_character(op, np, c)
            &&& np.characters@[c] == (Character { parts: np.characters@[c].parts, ..op.characters@[c] })
            &&& np.characters@[c].parts@ == without_named_parts(op.characters@[c].parts@, part_name)
            &&& after.editor_selected_part == if before.editor_selected_part matches Some(n) && n@ == part_name {
                None } else { before.editor_selected_part }
            &&& status matches Some(m) && m@ == quoted_message("Deleted part "@, part_name)
        })
    &&& (after == (AppState { project: after.project, editor_selected_part: after.editor_selected_part,
            ..before }))
}

/// `after` and `status` are what `delete_animation` leaves of `before` and answers.
#[verifier::opaque]
pub open spec fn animation_deleted(before: AppState, after: AppState, char_name: Seq<char>, anim_index: usize, anim_name: Seq<char>, status: Option<String>) -> bool {
    &&& (({
            let op = before.the_project();
            let c = char_index(op, char_name);
            if before.project is Some && c >= 0 && anim_index < op.characters@[c].animations.len() {
                let np = after.the_project();
                let new_len = op.characters@[c].animations.len() - 1;
                &&& after.project is Some
                &&& same_except_character(op, np, c)
                &&& np.characters@[c] == (Character { animations: np.characters@[c].animations, ..op.characters@[c] })
                &&& np.characters@[c].animations@ == op.characters@[c].animations@.remove(anim_index as int)
                &&& after.current_animation == if before.current_animation >= new_len && new_len > 0 {
                    (new_len - 1) as usize } else { before.current_animation }
                &&& after.current_frame == 0
                &&& status matches Some(m) && m@ == quoted_message("Deleted animation "@, anim_name)
            } else {
                after == before && status is None
            }
        }))
    &&& (after == (AppState { project: after.project, current_animation: after.current_animation,
            current_frame: after.current_frame, ..before }))
}

/// `after` and `status` are what `delete_frame` leaves of `before` and answers.
#[verifier::opaque]
pub open spec fn frame_deleted(before: AppState, after: AppState, char_name: Seq<char>, anim_index: usize, frame_index: usize, status: Option<String>) -> bool {
    &&& (({
            let op = before.the_project();
            let c = char_index(op, char_name);
            let exists_anim = before.project is Some && c >= 0 && anim_index < op.characters@[c].animations.len();
            let n = if exists_anim { op.characters@[c].animations@[anim_index as int].frames.len() } else { 0 };
            if exists_anim && frame_index < n && n > 1 {
                let np = after.the_project();
                &&& after.project is Some
                &&& same_except_animation(op, np, c, anim_index as int)
                &&& np.characters@[c].animations@[anim_index as int] == (Animation {
                    frames: np.characters@[c].animations@[anim_index as int].frames,
                    ..op.characters@[c].animations@[anim_index as int] })
                &&& np.characters@[c].animations@[anim_index as int].frames@
                    == op.characters@[c].animations@[anim_index as int].frames@.remove(frame_index as int)
                &&& after.current_frame == if before.current_frame >= n - 1 { (n - 2) as usize } else { before.current_frame }
                &&& after.selected_part_id is None
                &&& status matches Some(m) && m@ == "Deleted frame "@ + decimal(frame_index as nat + 1)
            } else if exists_anim && n == 1 {
                &&& after == before
                &&& status matches Some(m) && m@ == "Cannot delete the only frame"@
            } else {
                after == before && status is None
            }
        }))
    &&& (after == (AppState { project: after.project, current_frame: after.current_frame,
            selected_part_id: after.selected_part_id, ..before }))
}

/// `after` and `status` are what `delete_layer` leaves of `before` and answers.
#[verifier::opaque]
pub open spec fn layer_deleted(before: AppState, after: AppState, layer_id: u64, layer_name: Seq<char>, status: Option<String>) -> bool {
    &&& (!before.has_frame() ==> after == before && status is None)
    &&& (before.has_frame() ==> {
            let c = before.active_index();
            let a = before.current_animation as int;
            let f = before.current_frame as int;
            let op = before.the_project();
            let np = after.the_project();
            &&& after.project is Some
            &&& same_except_frame_parts(op, np, c, a, f)
            &&& parts_at(np, c, a, f) == without_id(parts_at(op, c, a, f), layer_id)
            &&& after.selected_part_id == if before.selected_part_id == Some(layer_id) { None } else { before.selected_part_id }
            &&& status matches Some(m) && m@ == quoted_message("Deleted layer "@, layer_name)
        })
    &&& (after == (AppState { project: after.project, selected_part_id: after.selected_part_id, ..before }))
}

/// `after` and `status` are what `rename_character` leaves of `before` and answers.
#[verifier::opaque]
pub open spec fn character_renamed(before: AppState, after: AppState, char_name: Seq<char>, new_name: Seq<char>, status: Option<String>) -> bool {
    &&& (({
            let op = before.the_project();
            let c = char_index(op, char_name);
            if before.project is Some && c >= 0 {
                let np = after.the_project();
                &&& after.project is Some
                &&& same_except_character(op, np, c)
                &&& np.characters@[c] == (Character { name: np.characters@[c].name, ..op.characters@[c] })
                &&& np.characters@[c].name@ == new_name
                &&& (before.active_character matches Some(n) && n@ == char_name) ==> (after.active_character matches Some(m) && m@ == new_name)
                &&& !(before.active_character matches Some(n) && n@ == char_name) ==> after.active_character == before.active_character
                &&& (before.active_tab matches ActiveTab::CharacterEditor(t) && t@ == char_name) ==>
                    (after.active_tab matches ActiveTab::CharacterEditor(t) && t@ == new_name)
                &&& !(before.active_tab matches ActiveTab::CharacterEditor(t) && t@ == char_name) ==> after.active_tab == before.active_tab
                &&& status matches Some(m) && m@ == quoted_message("Renamed character to "@, new_name)
            } else {
                after == before && status is None
            }
        }))
    &&& (after == (AppState { project: after.project, active_character: after.active_character,
            active_tab: after.active_tab, ..before }))
}

/// `after` and `status` are what `rename_part` leaves of `before` and answers.
#[verifier::opaque]
pub open spec fn part_renamed(before: AppState, after: AppState, char_name: Seq<char>, part_name: Seq<char>, new_name: Seq<char>, status: Option<String>) -> bool {
    &&& (({
            let op = before.the_project();
            let c = char_index(op, char_name);
            let k = if before.project is Some && c >= 0 { first_index_of(part_names(op.characters@[c].parts@), part_name) } else { -1 };
            if k >= 0 {
                let np = after.the_project();
                &&& after.project is Some
                &&& same_except_character(op, np, c)
                &&& np.characters@[c] == (Character { parts: np.characters@[c].parts, ..op.characters@[c] })
                &&& np.characters@[c].parts.len() == op.characters@[c].parts.len()
                &&& np.characters@[c].parts@ == op.characters@[c].parts@.update(k, np.characters@[c].parts@[k])
                &&& np.characters@[c].parts@[k] == (Part { name: np.characters@[c].parts@[k].name, ..op.characters@[c].parts@[k] })
                &&& np.characters@[c].parts@[k].name@ == new_name
                &&& after.editor_selected_part matches Some(n) && n@ == new_name
                &&& status matches Some(m) && m@ == quoted_message("Renamed part to "@, new_name)
            } else {
                after == before && status is None
            }
        }))
    &&& (after == (AppState { project: after.project, editor_selected_part: after.editor_selected_part,
            ..before }))
}

/// `after` and `status` are what `rename_animation` leaves of `before` and answers.
#[verifier::opaque]
pub open spec fn animation_renamed(before: AppState, after: AppState, char_name: Seq<char>, anim_index: usize, new_name: Seq<char>, status: Option<String>) -> bool {
    &&& (({
            let op = before.the_project();
            let c = char_index(op, char_name);
            if before.project is Some && c >= 0 && anim_index < op.characters@[c].animations.len() {
                let np = after.the_project();
                &&& after.project is Some
                &&& same_except_animation(op, np, c, anim_index as int)
                &&& np.characters@[c].animations@[anim_index as int] == (Animation {
                    name: np.characters@[c].animations@[anim_index as int].name,
                    ..op.characters@[c].animations@[anim_index as int] })
                &&& np.characters@[c].animations@[anim_index as int].name@ == new_name
                &&& status matches Some(m) && m@ == quoted_message("Renamed animation to "@, new_name)
            } else {
                after == before && status is None
            }
        }))
    &&& (after == (AppState { project: after.project, ..before }))
}

} // verus!
