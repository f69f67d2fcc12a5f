use vstd::prelude::*;
use crate::model::{Animation, Character, Frame, PlacedPart, first_index_of, lemma_first_index_of};
use crate::project::{Project, character_names};
use crate::types::{ActiveTab, ContextMenuTarget, DraggedPart, GalleryDrag, PendingAction};
use crate::edit::{same_except_frame_parts, parts_at};
use crate::layers::{is_unique_layer_name, views, unique_layer_name};

verus! {

/// Index of the first part in `parts` with ID `id`, or -1 when there is none.
pub open spec fn first_with_id(parts: Seq<PlacedPart>, id: u64) -> int
    decreases parts.len(),
{
    if parts.len() == 0 {
        -1
    } else if parts.last().id == id && first_with_id(parts.drop_last(), id) == -1 {
        parts.len() - 1
    } else {
        first_with_id(parts.drop_last(), id)
    }
}

/// `first_with_id` is the least index holding `id`, or -1 when none does.
pub proof fn lemma_first_with_id(parts: Seq<PlacedPart>, id: u64)
    ensures
        -1 <= first_with_id(parts, id) < parts.len(),
        first_with_id(parts, id) == -1 <==> forall|k: int| 0 <= k < parts.len() ==> (#[trigger] parts[k]).id != id,
        first_with_id(parts, id) >= 0 ==> parts[first_with_id(parts, id)].id == id,
        forall|k: int| 0 <= k < first_with_id(parts, id) ==> (#[trigger] parts[k]).id != id,
    decreases parts.len(),
{
    if parts.len() > 0 {
        lemma_first_with_id(parts.drop_last(), id);
        assert forall|k: int| 0 <= k < parts.len() - 1 implies parts.drop_last()[k] == parts[k] by {}
    }
}

/// The name a layer is shown under: its layer name, or its part name when that is empty.
pub open spec fn display_name(p: PlacedPart) -> Seq<char> {
    if p.layer_name@.len() == 0 { p.part_name@ } else { p.layer_name@ }
}

/// The names `parts` are shown under, bottom first.
pub open spec fn display_names(parts: Seq<PlacedPart>) -> Seq<Seq<char>> {
    parts.map_values(|p: PlacedPart| display_name(p))
}

/// View options of the canvas.
#[derive(Debug)]
pub struct ViewOptions {
    pub show_grid: bool,
    pub show_labels: bool,
    pub show_overlay_info: bool,
    /// Whether placed parts snap to whole pixels.
    pub pixel_aligned: bool,
    /// Whether the reference image is drawn above the parts.
    pub reference_show_on_top: bool,
}

/// What the pointer is doing on the canvas.
#[derive(Debug)]
pub struct PointerState {
    /// Part clicked last, to check that both clicks of a double click hit it.
    pub last_clicked_part_id: Option<u64>,
    pub is_panning: bool,
    pub pan_started_in_canvas: bool,
    pub dragging_part: Option<DraggedPart>,
    pub gallery_drag: Option<GalleryDrag>,
    pub dragging_reference: bool,
}

/// Open dialogs, their input buffers and what they apply to.
#[derive(Debug)]
pub struct Dialogs {
    pub reopen_view_menu: bool,
    pub show_new_character_dialog: bool,
    pub show_new_part_dialog: bool,
    pub show_new_state_dialog: bool,
    pub show_new_animation_dialog: bool,
    pub show_import_image_dialog: bool,
    pub show_import_rotation_dialog: bool,
    pub show_rename_dialog: bool,
    pub show_delete_confirm_dialog: bool,
    pub show_clone_character_dialog: bool,
    pub context_menu_target: Option<ContextMenuTarget>,
    pub rename_new_name: String,
    pub clone_source_character: Option<String>,
    pub clone_character_name: String,
    pub pending_rotation_import: Option<u16>,
    pub new_character_name: String,
    pub new_part_name: String,
    pub new_state_name: String,
    pub new_animation_name: String,
    pub selected_character_for_part: Option<String>,
    pub selected_part_for_state: Option<String>,
    pub selected_state_for_import: Option<String>,
    pub selected_rotation_for_import: u16,
    pub import_image_path: String,
}

/// The editor's state apart from what only the user interface holds (zoom, pan offsets,
/// playback clock, textures, status time stamps).
#[derive(Debug)]
pub struct AppState {
    pub project: Option<Project>,
    pub project_path: Option<std::path::PathBuf>,
    /// JSON of the project as last saved, for detecting unsaved changes.
    pub last_saved_json: Option<String>,
    /// Action waiting for the unsaved-changes dialog.
    pub pending_action: Option<PendingAction>,
    pub current_animation: usize,
    pub current_frame: usize,
    pub is_playing: bool,
    pub selected_part_id: Option<u64>,
    pub needs_zoom_fit: bool,
    pub active_character: Option<String>,
    pub active_tab: ActiveTab,
    pub editor_selected_part: Option<String>,
    pub editor_selected_state: Option<String>,
    pub view: ViewOptions,
    pub pointer: PointerState,
    pub dialogs: Dialogs,
}

impl AppState {
    /// No project open; grid, labels and overlay shown; pixel-aligned placement.
    pub fn new() -> (r: Self)
        ensures
            r.project is None,
            r.project_path is None,
            r.last_saved_json is None,
            r.pending_action is None,
            r.current_animation == 0 && r.current_frame == 0,
            !r.is_playing,
            r.selected_part_id is None,
            r.needs_zoom_fit,
            r.active_character is None,
            r.active_tab == ActiveTab::Canvas,
            r.editor_selected_part is None && r.editor_selected_state is None,
            r.view.show_grid && r.view.show_labels && r.view.show_overlay_info,
            r.view.pixel_aligned && !r.view.reference_show_on_top,
            r.pointer.last_clicked_part_id is None,
            !r.pointer.is_panning && !r.pointer.pan_started_in_canvas && !r.pointer.dragging_reference,
            r.pointer.dragging_part is None && r.pointer.gallery_drag is None,
            !r.dialogs.reopen_view_menu,
            !r.dialogs.show_new_character_dialog && !r.dialogs.show_new_part_dialog && !r.dialogs.show_new_state_dialog,
            !r.dialogs.show_new_animation_dialog && !r.dialogs.show_import_image_dialog,
            !r.dialogs.show_import_rotation_dialog && !r.dialogs.show_rename_dialog,
            !r.dialogs.show_delete_confirm_dialog && !r.dialogs.show_clone_character_dialog,
            r.dialogs.context_menu_target is None,
            r.dialogs.rename_new_name@.len() == 0,
            r.dialogs.clone_source_character is None,
            r.dialogs.clone_character_name@.len() == 0,
            r.dialogs.pending_rotation_import is None,
            r.dialogs.new_character_name@.len() == 0 && r.dialogs.new_part_name@.len() == 0,
            r.dialogs.new_state_name@.len() == 0 && r.dialogs.new_animation_name@.len() == 0,
            r.dialogs.selected_character_for_part is None && r.dialogs.selected_part_for_state is None,
            r.dialogs.selected_state_for_import is None,
            r.dialogs.selected_rotation_for_import == 0,
            r.dialogs.import_image_path@.len() == 0,
    {
        AppState {
            project: None,
            project_path: None,
            last_saved_json: None,
            pending_action: None,
            current_animation: 0,
            current_frame: 0,
            is_playing: false,
            selected_part_id: None,
            needs_zoom_fit: true,
            active_character: None,
            active_tab: ActiveTab::Canvas,
            editor_selected_part: None,
            editor_selected_state: None,
            view: ViewOptions {
                show_grid: true,
                show_labels: true,
                show_overlay_info: true,
                pixel_aligned: true,
                reference_show_on_top: false,
            },
            pointer: PointerState {
                last_clicked_part_id: None,
                is_panning: false,
                pan_started_in_canvas: false,
                dragging_part: None,
                gallery_drag: None,
                dragging_reference: false,
            },
            dialogs: Dialogs {
                reopen_view_menu: false,
                show_new_character_dialog: false,
                show_new_part_dialog: false,
                show_new_state_dialog: false,
                show_new_animation_dialog: false,
                show_import_image_dialog: false,
                show_import_rotation_dialog: false,
                show_rename_dialog: false,
                show_delete_confirm_dialog: false,
                show_clone_character_dialog: false,
                context_menu_target: None,
                rename_new_name: String::new(),
                clone_source_character: None,
                clone_character_name: String::new(),
                pending_rotation_import: None,
                new_character_name: String::new(),
                new_part_name: String::new(),
                new_state_name: String::new(),
                new_animation_name: String::new(),
                selected_character_for_part: None,
                selected_part_for_state: None,
                selected_state_for_import: None,
                selected_rotation_for_import: 0,
                import_image_path: String::new(),
            },
        }
    }

    /// Index of the active character in the project; -1 when there is no project, no active
    /// character, or no character of that name.
    pub open spec fn active_index(self) -> int {
        match self.project {
            Some(p) => match self.active_character {
                Some(n) => first_index_of(character_names(p.characters@), n@),
                None => -1,
            },
            None => -1,
        }
    }

    /// The active character (meaningful when `active_index() >= 0`).
    pub open spec fn the_character(self) -> Character {
        self.project.unwrap().characters@[self.active_index()]
    }

    /// Whether the current animation index names an animation of the active character.
    pub open spec fn has_animation(self) -> bool {
        self.active_index() >= 0 && self.current_animation < self.the_character().animations.len()
    }

    /// The current animation (meaningful when `has_animation()`).
    pub open spec fn the_animation(self) -> Animation {
        self.the_character().animations@[self.current_animation as int]
    }

    /// Whether the current frame index names a frame of the current animation.
    pub open spec fn has_frame(self) -> bool {
        self.has_animation() && self.current_frame < self.the_animation().frames.len()
    }

    /// The current frame (meaningful when `has_frame()`).
    pub open spec fn the_frame(self) -> Frame {
        self.the_animation().frames@[self.current_frame as int]
    }

    /// (active character, current animation, current frame) when all three exist.
    pub open spec fn frame_indices(self) -> Option<(int, int, int)> {
        if self.has_frame() {
            Some((self.active_index(), self.current_animation as int, self.current_frame as int))
        } else {
            None
        }
    }

    /// The project (meaningful when there is one).
    pub open spec fn the_project(self) -> Project {
        self.project.unwrap()
    }

    /// Index of the active character in the project.
    pub fn active_character_index(&self) -> (r: Option<usize>)
        ensures
            match r {
                Some(i) => self.active_index() >= 0 && i as int == self.active_index()
                    && self.project is Some && i < self.the_project().characters.len(),
                None => self.active_index() < 0,
            },
    {
        proof {
            if self.project is Some && self.active_character is Some {
                lemma_first_index_of(character_names(self.the_project().characters@), self.active_character.unwrap()@);
            }
        }
        match &self.project {
            Some(p) => match &self.active_character {
                Some(n) => {
                    proof { lemma_first_index_of(character_names(p.characters@), n@); }
                    p.character_index(n.as_str())
                },
                None => None,
            },
            None => None,
        }
    }

    /// The active character.
    pub fn active_character_ref(&self) -> (r: Option<&Character>)
        ensures
            match r {
                Some(c) => self.active_index() >= 0 && *c == self.the_character(),
                None => self.active_index() < 0,
            },
    {
        proof {
            if self.project is Some && self.active_character is Some {
                lemma_first_index_of(character_names(self.the_project().characters@), self.active_character.unwrap()@);
            }
        }
        match self.active_character_index() {
            Some(i) => match &self.project {
                Some(p) => Some(&p.characters[i]),
                None => None,
            },
            None => None,
        }
    }

    /// The current animation of the active character.
    pub fn current_animation(&self) -> (r: Option<&Animation>)
        ensures
            match r {
                Some(a) => self.has_animation() && *a == self.the_animation(),
                None => !self.has_animation(),
            },
    {
        match self.active_character_ref() {
            Some(c) => {
                if self.current_animation < c.animations.len() {
                    Some(&c.animations[self.current_animation])
                } else {
                    None
                }
            },
            None => None,
        }
    }

    /// Number of frames of the current animation, or 1 when there is none.
    pub fn total_frames(&self) -> (r: usize)
        ensures
            r == if self.has_animation() { self.the_animation().frames.len() } else { 1 },
    {
        match self.current_animation() {
            Some(a) => a.frames.len(),
            None => 1,
        }
    }

    /// The current frame.
    pub fn current_frame_ref(&self) -> (r: Option<&Frame>)
        ensures
            match r {
                Some(f) => self.has_frame() && *f == self.the_frame(),
                None => !self.has_frame(),
            },
    {
        match self.current_animation() {
            Some(a) => {
                if self.current_frame < a.frames.len() {
                    Some(&a.frames[self.current_frame])
                } else {
                    None
                }
            },
            None => None,
        }
    }

    /// The selected layer of the current frame: the first with the selected ID.
    pub fn get_selected_placed_part(&self) -> (r: Option<&PlacedPart>)
        ensures
            match r {
                Some(p) => {
                    &&& self.selected_part_id is Some
                    &&& self.has_frame()
                    &&& {
                        let k = first_with_id(self.the_frame().placed_parts@, self.selected_part_id.unwrap());
                        k >= 0 && *p == self.the_frame().placed_parts@[k]
                    }
                },
                None => self.selected_part_id is None || !self.has_frame()
                    || first_with_id(self.the_frame().placed_parts@, self.selected_part_id.unwrap()) == -1,
            },
    {
        let id = match self.selected_part_id {
            Some(id) => id,
            None => { return None; },
        };
        let frame = match self.current_frame_ref() {
            Some(f) => f,
            None => { return None; },
        };
        proof { lemma_first_with_id(frame.placed_parts@, id); }
        let mut k: usize = 0;
        while k < frame.placed_parts.len()
            invariant
                k <= frame.placed_parts.len(),
                self.has_frame(),
                *frame == self.the_frame(),
                self.selected_part_id == Some(id),
                forall|j: int| 0 <= j < k ==> (#[trigger] frame.placed_parts@[j]).id != id,
            decreases frame.placed_parts.len() - k,
        {
            if frame.placed_parts[k].id == id {
                proof {
                    lemma_first_with_id(frame.placed_parts@, id);
                    let f = first_with_id(frame.placed_parts@, id);
                    if f < k { assert(frame.placed_parts@[f].id != id); }
                    if f > k { assert(frame.placed_parts@[k as int].id != id); }
                }
                return Some(&frame.placed_parts[k]);
            }
            k = k + 1;
        }
        proof { lemma_first_with_id(frame.placed_parts@, id); }
        None
    }
}


/// The layer placed for part `part_name` of character `character_name` in state `state_name`
/// at `position_bits`, with ID `id`, named `layer_name`.
pub open spec fn is_new_layer(p: PlacedPart, id: u64, character_name: Seq<char>, part_name: Seq<char>,
    state_name: Seq<char>, position_bits: (u32, u32)) -> bool
{
    &&& p.id == id
    &&& p.character_name@ == character_name
    &&& p.part_name@ == part_name
    &&& p.state_name@ == state_name
    &&& p.rotation == 0
    &&& p.position_bits == position_bits
    &&& p.z_override is None
    &&& p.visible
}

/// The names `parts` are shown under.
pub fn display_names_of(parts: &Vec<PlacedPart>) -> (r: Vec<String>)
    ensures
        views(r@) == display_names(parts@),
{
    let mut existing: Vec<String> = Vec::new();
    let mut k: usize = 0;
    while k < parts.len()
        invariant
            k <= parts.len(),
            views(existing@) == display_names(parts@).take(k as int),
        decreases parts.len() - k,
    {
        let shown = if parts[k].layer_name.as_str().is_empty() {
            parts[k].part_name.clone()
        } else {
            parts[k].layer_name.clone()
        };
        let ghost prev = existing@;
        assert(shown@ == display_name(parts@[k as int]));
        existing.push(shown);
        assert(views(existing@) =~= views(prev).push(shown@));
        assert(display_names(parts@).take(k as int + 1) =~= display_names(parts@).take(k as int).push(display_name(parts@[k as int])));
        k = k + 1;
    }
    assert(display_names(parts@).take(k as int) =~= display_names(parts@));
    existing
}

/// A new layer on top of `parts`, named uniquely after the part.
fn new_layer(parts: &Vec<PlacedPart>, id: u64, character_name: &str, part: &str, state: &str,
    position_bits: (u32, u32)) -> (r: PlacedPart)
    ensures
        is_new_layer(r, id, character_name@, part@, state@, position_bits),
        is_unique_layer_name(display_names(parts@), part@, r.layer_name@),
{
    let existing = display_names_of(parts);
    let layer_name = unique_layer_name(&existing, part);
    let mut placed = PlacedPart::new(id, character_name, part, state).with_layer_name(layer_name.as_str());
    placed.position_bits = position_bits;
    placed
}

/// The indices `idx` as integers.
pub open spec fn spec_indices(idx: Option<(usize, usize, usize)>) -> Option<(int, int, int)> {
    match idx {
        Some((c, a, f)) => Some((c as int, a as int, f as int)),
        None => None,
    }
}

/// `after` is `before` with a fresh ID taken and, when `at` names a frame, a new layer with
/// that ID on top of that frame, showing part `part` of character `character_name` in state
/// `state` at `position_bits`, named uniquely after the part.
#[verifier::opaque]
pub open spec fn layer_placed(before: Project, after: Project, at: Option<(int, int, int)>, character_name: Seq<char>,
    part: Seq<char>, state: Seq<char>, position_bits: (u32, u32)) -> bool
{
    &&& after.next_part_id == before.next_part_id + 1
    &&& match at {
        Some((c, a, f)) => {
            let old_parts = parts_at(before, c, a, f);
            let new_parts = parts_at(after, c, a, f);
            &&& same_except_frame_parts(Project { next_part_id: after.next_part_id, ..before }, after, c, a, f)
            &&& new_parts.len() == old_parts.len() + 1
            &&& new_parts.take(old_parts.len() as int) == old_parts
            &&& is_new_layer(new_parts.last(), before.next_part_id, character_name, part, state, position_bits)
            &&& is_unique_layer_name(display_names(old_parts), part, new_parts.last().layer_name@)
        },
        None => after == (Project { next_part_id: after.next_part_id, ..before }),
    }
}

/// Takes a fresh ID and, when `idx` names a frame, puts a new layer with it on top of that frame.
fn place_in_project(p: &mut Project, idx: Option<(usize, usize, usize)>, character_name: &str, part: &str,
    state: &str, position_bits: (u32, u32)) -> (placed: bool)
    requires
        old(p).next_part_id < u64::MAX,
        idx matches Some((c, a, f)) ==> c < old(p).characters.len() && a < old(p).characters@[c as int].animations.len()
            && f < old(p).characters@[c as int].animations@[a as int].frames.len(),
    ensures
        final(p).next_part_id == old(p).next_part_id + 1,
        placed == idx is Some,
        layer_placed(*old(p), *final(p), spec_indices(idx), character_name@, part@, state@, position_bits),
{
    let layer = match idx {
        None => None,
        Some((c, a, f)) => Some(new_layer(&p.characters[c].animations[a].frames[f].placed_parts,
            p.next_part_id, character_name, part, state, position_bits)),
    };
    proof { reveal(layer_placed); }
    let _id = p.next_id();
    match idx {
        Some((c, a, f)) => {
            let ghost mid = *p;
            let l = layer.unwrap();
            p.push_layer(c, a, f, l);
            proof {
                assert(parts_at(*p, c as int, a as int, f as int).take(parts_at(mid, c as int, a as int, f as int).len() as int)
                    =~= parts_at(mid, c as int, a as int, f as int));
            }
            true
        },
        None => false,
    }
}

impl AppState {
    /// Takes the open project out.
    pub(crate) fn take_project(&mut self) -> (p: Project)
        requires
            old(self).project is Some,
        ensures
            p == old(self).project.unwrap(),
            *final(self) == (AppState { project: None, ..*old(self) }),
    {
        self.project.take().unwrap()
    }

    /// Puts `p` in place of the project and `sel` in place of the selection.
    pub(crate) fn replace_project(&mut self, p: Project, sel: Option<u64>)
        ensures
            *final(self) == (AppState { project: Some(p), selected_part_id: sel, ..*old(self) }),
    {
        self.project = Some(p);
        self.selected_part_id = sel;
    }

    /// (active character, current animation, current frame) when all three exist.
    pub fn current_frame_indices(&self) -> (r: Option<(usize, usize, usize)>)
        ensures
            match r {
                Some((c, a, f)) => self.has_frame() && c as int == self.active_index()
                    && a == self.current_animation && f == self.current_frame
                    && c < self.the_project().characters.len(),
                None => !self.has_frame(),
            },
    {
        proof {
            if self.project is Some && self.active_character is Some {
                lemma_first_index_of(character_names(self.the_project().characters@), self.active_character.unwrap()@);
            }
        }
        match self.active_character_index() {
            Some(c) => match &self.project {
                Some(p) => {
                    if self.current_animation < p.characters[c].animations.len()
                        && self.current_frame < p.characters[c].animations[self.current_animation].frames.len() {
                        Some((c, self.current_animation, self.current_frame))
                    } else {
                        None
                    }
                },
                None => None,
            },
            None => None,
        }
    }

    /// Places a part on the current frame as a new top layer.
    ///
    /// When a project is open a fresh ID is taken, whether or not there is a current frame.
    /// With a current frame, the layer is named after the part, numbered ("arm 2", ...) when
    /// that name is shown by a layer already, is pushed on top and becomes the selection;
    /// returns whether it was placed.
    pub fn place_part_on_canvas(&mut self, character_name: &str, part: &str, state: &str,
        position_bits: (u32, u32)) -> (placed: bool)
        requires
            old(self).project matches Some(p) ==> p.next_part_id < u64::MAX,
        ensures
            old(self).project is None ==> *final(self) == *old(self) && !placed,
            old(self).project is Some ==> {
                &&& final(self).project is Some
                &&& placed == old(self).has_frame()
                &&& layer_placed(old(self).the_project(), final(self).the_project(), old(self).frame_indices(),
                        character_name@, part@, state@, position_bits)
                &&& final(self).selected_part_id == if placed { Some(old(self).the_project().next_part_id) } else { old(self).selected_part_id }
            },
            *final(self) == (AppState { project: final(self).project, selected_part_id: final(self).selected_part_id, ..*old(self) }),
    {
        let idx = self.current_frame_indices();
        if self.project.is_none() {
            return false;
        }
        let mut p = self.take_project();
        let id = p.next_part_id;
        let placed = place_in_project(&mut p, idx, character_name, part, state, position_bits);
        let sel = if placed { Some(id) } else { self.selected_part_id };
        self.replace_project(p, sel);
        placed
    }
}

} // verus!
