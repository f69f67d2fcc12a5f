use vstd::prelude::*;
use crate::session::{AppState, Dialogs};
use crate::types::ContextMenuTarget;
use crate::actions::{
    character_deleted, part_deleted, animation_deleted, frame_deleted, layer_deleted,
    character_renamed, part_renamed, animation_renamed,
};

verus! {

/// `s` with the context-menu target dropped and the delete dialog closed.
pub open spec fn delete_dialog_closed(s: AppState) -> AppState {
    AppState {
        dialogs: Dialogs { context_menu_target: None, show_delete_confirm_dialog: false, ..s.dialogs },
        ..s
    }
}

/// `s` with the context-menu target dropped and the rename dialog closed.
pub open spec fn rename_dialog_closed(s: AppState) -> AppState {
    AppState {
        dialogs: Dialogs { context_menu_target: None, show_rename_dialog: false, ..s.dialogs },
        ..s
    }
}

impl AppState {
    /// "Delete" in the confirmation dialog: closes it and deletes what the context menu was
    /// opened on. Returns the status message, if any.
    #[verifier::rlimit(40)]
    pub fn confirm_delete(&mut self) -> (status: Option<String>)
        ensures
            ({
                let mid = delete_dialog_closed(*old(self));
                match old(self).dialogs.context_menu_target {
                    None => *final(self) == mid && status is None,
                    Some(ContextMenuTarget::Character { char_name }) =>
                        character_deleted(mid, *final(self), char_name@, status),
                    Some(ContextMenuTarget::Part { char_name, part_name }) =>
                        part_deleted(mid, *final(self), char_name@, part_name@, status),
                    Some(ContextMenuTarget::Animation { char_name, anim_index, anim_name }) =>
                        animation_deleted(mid, *final(self), char_name@, anim_index, anim_name@, status),
                    Some(ContextMenuTarget::Frame { char_name, anim_index, frame_index }) =>
                        frame_deleted(mid, *final(self), char_name@, anim_index, frame_index, status),
                    Some(ContextMenuTarget::Layer { layer_id, layer_name }) =>
                        layer_deleted(mid, *final(self), layer_id, layer_name@, status),
                }
            }),
    {
        let target = self.dialogs.context_menu_target.take();
        self.dialogs.show_delete_confirm_dialog = false;
        assert(*self == delete_dialog_closed(*old(self)));
        assert(target == old(self).dialogs.context_menu_target);
        match target {
            None => None,
            Some(ContextMenuTarget::Character { char_name }) => self.delete_character(char_name.as_str()),
            Some(ContextMenuTarget::Part { char_name, part_name }) =>
                self.delete_part(char_name.as_str(), part_name.as_str()),
            Some(ContextMenuTarget::Animation { char_name, anim_index, anim_name }) =>
                self.delete_animation(char_name.as_str(), anim_index, anim_name.as_str()),
            Some(ContextMenuTarget::Frame { char_name, anim_index, frame_index }) =>
                self.delete_frame(char_name.as_str(), anim_index, frame_index),
            Some(ContextMenuTarget::Layer { layer_id, layer_name }) =>
                self.delete_layer(layer_id, layer_name.as_str()),
        }
    }

    /// "Cancel" in the delete or rename dialog: closes both and drops the target.
    pub fn cancel_dialog(&mut self)
        ensures
            *final(self) == (AppState {
                dialogs: Dialogs {
                    context_menu_target: None,
                    show_delete_confirm_dialog: false,
                    show_rename_dialog: false,
                    ..old(self).dialogs },
                ..*old(self) }),
    {
        self.dialogs.context_menu_target = None;
        self.dialogs.show_delete_confirm_dialog = false;
        self.dialogs.show_rename_dialog = false;
    }

    /// "Rename" in the rename dialog: with a new name typed, closes the dialog and renames what
    /// the context menu was opened on (frames and layers keep their names). Returns the status
    /// message, if any; with no name typed nothing happens.
    #[verifier::rlimit(40)]
    pub fn confirm_rename(&mut self) -> (status: Option<String>)
        ensures
            old(self).dialogs.rename_new_name@.len() == 0 ==> *final(self) == *old(self) && status is None,
            old(self).dialogs.rename_new_name@.len() > 0 ==> ({
                let mid = rename_dialog_closed(*old(self));
                let new_name = old(self).dialogs.rename_new_name@;
                match old(self).dialogs.context_menu_target {
                    Some(ContextMenuTarget::Character { char_name }) =>
                        character_renamed(mid, *final(self), char_name@, new_name, status),
                    Some(ContextMenuTarget::Part { char_name, part_name }) =>
                        part_renamed(mid, *final(self), char_name@, part_name@, new_name, status),
                    Some(ContextMenuTarget::Animation { char_name, anim_index, .. }) =>
                        animation_renamed(mid, *final(self), char_name@, anim_index, new_name, status),
                    _ => *final(self) == mid && status is None,
                }
            }),
    {
        if self.dialogs.rename_new_name.as_str().is_empty() {
            return None;
        }
        let new_name = self.dialogs.rename_new_name.clone();
        let target = self.dialogs.context_menu_target.take();
        self.dialogs.show_rename_dialog = false;
        assert(*self == rename_dialog_closed(*old(self)));
        assert(target == old(self).dialogs.context_menu_target);
        match target {
            Some(ContextMenuTarget::Character { char_name }) =>
                self.rename_character(char_name.as_str(), new_name.as_str()),
            Some(ContextMenuTarget::Part { char_name, part_name }) =>
                self.rename_part(char_name.as_str(), part_name.as_str(), new_name.as_str()),
            Some(ContextMenuTarget::Animation { char_name, anim_index, .. }) =>
                self.rename_animation(char_name.as_str(), anim_index, new_name.as_str()),
            _ => None,
        }
    }
}

} // verus!
