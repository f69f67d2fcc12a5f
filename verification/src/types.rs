use vstd::prelude::*;

verus! {

/// The tab shown in the central panel.
#[derive(Debug)]
pub enum ActiveTab {
    Canvas,
    /// The character editor, for the character of this name.
    CharacterEditor(String),
}

impl Clone for ActiveTab {
    fn clone(&self) -> (r: Self)
        ensures
            r == *self,
    {
        match self {
            ActiveTab::Canvas => ActiveTab::Canvas,
            ActiveTab::CharacterEditor(n) => ActiveTab::CharacterEditor(n.clone()),
        }
    }
}

impl Default for ActiveTab {
    fn default() -> (r: Self)
        ensures
            r == ActiveTab::Canvas,
    {
        ActiveTab::Canvas
    }
}

/// An action that waits for the user to decide about unsaved changes.
#[derive(Debug, Clone, Copy, PartialEq, Eq)]
pub enum PendingAction {
    CloseProject,
    NewProject,
    OpenProject,
    Exit,
}

/// A placed part being dragged on the canvas.
#[derive(Debug)]
pub struct DraggedPart {
    pub character_id: u64,
    pub part_name: String,
    pub state_name: String,
}

/// A part being dragged from the gallery onto the canvas.
#[derive(Debug)]
pub struct GalleryDrag {
    pub character_id: u64,
    /// Name of the character the part belongs to.
    pub character_name: String,
    pub part_name: String,
    pub state_name: String,
}

/// What a context menu, and the rename or delete dialog it opens, applies to.
#[derive(Debug)]
pub enum ContextMenuTarget {
    Character { char_name: String },
    Part { char_name: String, part_name: String },
    Animation { char_name: String, anim_index: usize, anim_name: String },
    Frame { char_name: String, anim_index: usize, frame_index: usize },
    Layer { layer_id: u64, layer_name: String },
}

} // verus!
