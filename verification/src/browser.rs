use vstd::prelude::*;
use crate::model::{Part, rotation_at};
use crate::session::AppState;
use crate::types::{ActiveTab, ContextMenuTarget};

verus! {

/// The state a part is dragged out of the gallery in: its first, or "default" without one.
pub open spec fn gallery_state_name(part: Part) -> Seq<char> {
    if part.states.len() > 0 { part.states@[0].name@ } else { "default"@ }
}

/// The picture a part is shown with in the gallery: the unrotated image of its first state.
pub open spec fn gallery_thumbnail(part: Part) -> Option<String> {
    if part.states.len() > 0 {
        match rotation_at(part.states@[0], 0u16) {
            Some(r) => r.image_data,
            None => None,
        }
    } else {
        None
    }
}

/// The name a clone of character `name` is offered under.
pub open spec fn copy_name(name: Seq<char>) -> Seq<char> {
    name + " (copy)"@
}

/// (part name, state name, thumbnail) of a part, as the gallery shows it.
pub fn gallery_item(part: &Part) -> (r: (String, String, Option<String>))
    ensures
        r.0@ == part.name@,
        r.1@ == gallery_state_name(*part),
        r.2 == gallery_thumbnail(*part),
{
    proof { reveal_strlit("default"); }
    if part.states.len() == 0 {
        return (part.name.clone(), "default".to_owned(), None);
    }
    let first = &part.states[0];
    let thumb = match first.get_rotation(0) {
        Some(rot) => rot.image_data,
        None => None,
    };
    (part.name.clone(), first.name.clone(), thumb)
}

impl AppState {
    /// Makes character `k` of the project the active one: its first part is selected in the
    /// editor, no state is, the first animation and frame are shown and the view is refitted.
    /// Nothing happens without a project or such a character.
    pub fn select_character_at(&mut self, k: usize)
        ensures
            !(old(self).project is Some && k < old(self).the_project().characters.len()) ==> *final(self) == *old(self),
            old(self).project is Some && k < old(self).the_project().characters.len() ==> {
                let ch = old(self).the_project().characters@[k as int];
                &&& final(self).active_character matches Some(n) && n@ == ch.name@
                &&& (ch.parts.len() == 0 ==> final(self).editor_selected_part is None)
                &&& (ch.parts.len() > 0 ==> (final(self).editor_selected_part matches Some(n) && n@ == ch.parts@[0].name@))
                &&& *final(self) == (AppState {
                        active_character: final(self).active_character,
                        editor_selected_part: final(self).editor_selected_part,
                        editor_selected_state: None,
                        current_animation: 0,
                        current_frame: 0,
                        needs_zoom_fit: true,
                        ..*old(self) })
            },
    {
        let (name, first_part) = match &self.project {
            Some(p) => {
                if k < p.characters.len() {
                    let ch = &p.characters[k];
                    let first = if ch.parts.len() > 0 { Some(ch.parts[0].name.clone()) } else { None };
                    (ch.name.clone(), first)
                } else {
                    return;
                }
            },
            None => { return; },
        };
        self.active_character = Some(name);
        self.editor_selected_part = first_part;
        self.editor_selected_state = None;
        self.current_animation = 0;
        self.current_frame = 0;
        self.needs_zoom_fit = true;
    }

    /// Shows animation `i` of the active character from its first frame.
    pub fn select_animation(&mut self, i: usize)
        ensures
            *final(self) == (AppState { current_animation: i, current_frame: 0, ..*old(self) }),
    {
        self.current_animation = i;
        self.current_frame = 0;
    }

    /// Opens the active character in the character editor.
    pub fn edit_active_character(&mut self)
        ensures
            old(self).active_character is None ==> *final(self) == *old(self),
            old(self).active_character matches Some(n) ==> *final(self) == (AppState {
                active_tab: ActiveTab::CharacterEditor(n), ..*old(self) }),
    {
        match &self.active_character {
            Some(n) => { self.active_tab = ActiveTab::CharacterEditor(n.clone()); },
            None => {},
        }
    }

    /// Opens the dialog that clones the active character, offering "<name> (copy)".
    pub fn open_clone_dialog(&mut self)
        ensures
            old(self).active_character is None ==> *final(self) == *old(self),
            old(self).active_character matches Some(n) ==> {
                &&& final(self).dialogs.clone_source_character == Some(n)
                &&& final(self).dialogs.clone_character_name@ == copy_name(n@)
                &&& final(self).dialogs.show_clone_character_dialog
                &&& final(self).dialogs == (crate::session::Dialogs {
                        clone_source_character: final(self).dialogs.clone_source_character,
                        clone_character_name: final(self).dialogs.clone_character_name,
                        show_clone_character_dialog: true,
                        ..old(self).dialogs })
                &&& *final(self) == (AppState { dialogs: final(self).dialogs, ..*old(self) })
            },
    {
        let n = match &self.active_character {
            Some(n) => n.clone(),
            None => { return; },
        };
        proof { reveal_strlit(" (copy)"); }
        let mut offered = n.clone();
        offered.append(" (copy)");
        self.dialogs.clone_source_character = Some(n);
        self.dialogs.clone_character_name = offered;
        self.dialogs.show_clone_character_dialog = true;
    }

    /// Opens the rename dialog for the active character, filled with its name.
    pub fn open_rename_character_dialog(&mut self)
        ensures
            old(self).active_character is None ==> *final(self) == *old(self),
            old(self).active_character matches Some(n) ==> {
                &&& final(self).dialogs == (crate::session::Dialogs {
                        context_menu_target: Some(ContextMenuTarget::Character { char_name: n }),
                        rename_new_name: n,
                        show_rename_dialog: true,
                        ..old(self).dialogs })
                &&& *final(self) == (AppState { dialogs: final(self).dialogs, ..*old(self) })
            },
    {
        let n = match &self.active_character {
            Some(n) => n.clone(),
            None => { return; },
        };
        self.dialogs.context_menu_target = Some(ContextMenuTarget::Character { char_name: n.clone() });
        self.dialogs.rename_new_name = n;
        self.dialogs.show_rename_dialog = true;
    }

    /// Asks for confirmation before deleting the active character.
    pub fn open_delete_character_dialog(&mut self)
        ensures
            old(self).active_character is None ==> *final(self) == *old(self),
            old(self).active_character matches Some(n) ==> {
                &&& final(self).dialogs == (crate::session::Dialogs {
                        context_menu_target: Some(ContextMenuTarget::Character { char_name: n }),
                        show_delete_confirm_dialog: true,
                        ..old(self).dialogs })
                &&& *final(self) == (AppState { dialogs: final(self).dialogs, ..*old(self) })
            },
    {
        let n = match &self.active_character {
            Some(n) => n.clone(),
            None => { return; },
        };
        self.dialogs.context_menu_target = Some(ContextMenuTarget::Character { char_name: n });
        self.dialogs.show_delete_confirm_dialog = true;
    }

    /// Opens the new-character dialog with an empty name.
    pub fn open_new_character_dialog(&mut self)
        ensures
            final(self).dialogs.show_new_character_dialog,
            final(self).dialogs.new_character_name@.len() == 0,
            final(self).dialogs == (crate::session::Dialogs {
                show_new_character_dialog: true,
                new_character_name: final(self).dialogs.new_character_name,
                ..old(self).dialogs }),
            *final(self) == (AppState { dialogs: final(self).dialogs, ..*old(self) }),
    {
        self.dialogs.show_new_character_dialog = true;
        self.dialogs.new_character_name = String::new();
    }

    /// Renames the project.
    pub fn set_project_name(&mut self, name: &str)
        ensures
            old(self).project is None ==> *final(self) == *old(self),
            old(self).project matches Some(p) ==> {
                &&& final(self).project matches Some(q) && q == (crate::project::Project { name: q.name, ..p })
                &&& final(self).the_project().name@ == name@
                &&& *final(self) == (AppState { project: final(self).project, ..*old(self) })
            },
    {
        match &mut self.project {
            Some(p) => { p.name = name.to_owned(); },
            None => {},
        }
    }
}

} // verus!
