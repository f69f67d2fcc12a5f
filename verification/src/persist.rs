use vstd::prelude::*;
use crate::project::{EditorState, Project};
use crate::session::AppState;
use crate::types::{ActiveTab, PendingAction};
use vstd::string::StrSliceExecFns;

verus! {

/// The name a tab is saved under: "editor" for the character editor, "canvas" otherwise.
pub open spec fn tab_name(tab: ActiveTab) -> Seq<char> {
    match tab {
        ActiveTab::Canvas => "canvas"@,
        ActiveTab::CharacterEditor(_) => "editor"@,
    }
}

/// The tab restored from the saved name `name`: the character editor of the active character
/// when the name is "editor" and a character is active, the canvas otherwise.
pub open spec fn tab_restored(name: Seq<char>, active: Option<String>) -> ActiveTab {
    if name == "editor"@ {
        match active {
            Some(n) => ActiveTab::CharacterEditor(n),
            None => ActiveTab::Canvas,
        }
    } else {
        ActiveTab::Canvas
    }
}

/// The name `tab` is saved under.
pub fn active_tab_name(tab: &ActiveTab) -> (r: String)
    ensures
        r@ == tab_name(*tab),
{
    proof {
        reveal_strlit("canvas");
        reveal_strlit("editor");
    }
    match tab {
        ActiveTab::Canvas => "canvas".to_owned(),
        ActiveTab::CharacterEditor(_) => "editor".to_owned(),
    }
}

/// The tab restored from the saved name `name` with `active` the active character.
pub fn restored_tab(name: &str, active: &Option<String>) -> (r: ActiveTab)
    ensures
        r == tab_restored(name@, *active),
{
    proof { reveal_strlit("editor"); }
    let editor = "editor".to_owned();
    let is_editor = name.to_owned() == editor;
    if is_editor {
        match active {
            Some(n) => ActiveTab::CharacterEditor(n.clone()),
            None => ActiveTab::Canvas,
        }
    } else {
        ActiveTab::Canvas
    }
}

/// `e` records the editor state of `s`, with the zoom and reference opacity given.
pub open spec fn records(e: EditorState, s: AppState, zoom_level_bits: u32, reference_opacity_bits: u32) -> bool {
    &&& e.active_character == s.active_character
    &&& e.current_animation == s.current_animation
    &&& e.current_frame == s.current_frame
    &&& e.active_tab@ == tab_name(s.active_tab)
    &&& e.zoom_level_bits == zoom_level_bits
    &&& e.show_grid == s.view.show_grid
    &&& e.show_labels == s.view.show_labels
    &&& e.reference_opacity_bits == reference_opacity_bits
    &&& e.reference_show_on_top == s.view.reference_show_on_top
}

/// `after` is `before` with the project `p` opened from `path`, its editor state restored,
/// `saved_json` taken as the saved text, the selection cleared and a refit asked for.
pub open spec fn opened(before: AppState, after: AppState, p: Project, path: std::path::PathBuf,
    saved_json: Option<String>) -> bool
{
    let e = p.editor_state;
    &&& after.project == Some(p)
    &&& after.project_path == Some(path)
    &&& after.last_saved_json == saved_json
    &&& after.active_character == e.active_character
    &&& after.current_animation == e.current_animation
    &&& after.current_frame == e.current_frame
    &&& after.active_tab == tab_restored(e.active_tab@, e.active_character)
    &&& after.view == (crate::session::ViewOptions {
            show_grid: e.show_grid,
            show_labels: e.show_labels,
            reference_show_on_top: e.reference_show_on_top,
            ..before.view })
    &&& after.selected_part_id is None
    &&& after.needs_zoom_fit
    &&& after == (AppState {
            project: after.project,
            project_path: after.project_path,
            last_saved_json: after.last_saved_json,
            active_character: after.active_character,
            current_animation: after.current_animation,
            current_frame: after.current_frame,
            active_tab: after.active_tab,
            view: after.view,
            selected_part_id: None,
            needs_zoom_fit: true,
            ..before })
}

impl AppState {
    /// Records the editor state in the project before it is saved, with the zoom and the
    /// reference opacity the interface holds. Fails, changing nothing, without a project or
    /// without a file to save to.
    pub fn prepare_save(&mut self, zoom_level_bits: u32, reference_opacity_bits: u32) -> (r: Result<(), String>)
        ensures
            old(self).project is None ==> *final(self) == *old(self) && (r matches Err(m) && m@ == "No project to save"@),
            old(self).project is Some && old(self).project_path is None
                ==> *final(self) == *old(self) && (r matches Err(m) && m@ == "No file path set"@),
            old(self).project is Some && old(self).project_path is Some ==> {
                &&& r is Ok
                &&& final(self).project is Some
                &&& final(self).the_project() == (Project { editor_state: final(self).the_project().editor_state, ..old(self).the_project() })
                &&& records(final(self).the_project().editor_state, *old(self), zoom_level_bits, reference_opacity_bits)
                &&& *final(self) == (AppState { project: final(self).project, ..*old(self) })
            },
    {
        proof {
            reveal_strlit("No project to save");
            reveal_strlit("No file path set");
        }
        if self.project.is_none() {
            return Err("No project to save".to_owned());
        }
        if self.project_path.is_none() {
            return Err("No file path set".to_owned());
        }
        let e = EditorState {
            active_character: self.active_character.clone(),
            current_animation: self.current_animation,
            current_frame: self.current_frame,
            active_tab: active_tab_name(&self.active_tab),
            zoom_level_bits,
            show_grid: self.view.show_grid,
            show_labels: self.view.show_labels,
            reference_opacity_bits,
            reference_show_on_top: self.view.reference_show_on_top,
        };
        match &mut self.project {
            Some(p) => { p.editor_state = e; },
            None => {},
        }
        Ok(())
    }

    /// Notes `json` as the text last saved.
    pub fn mark_saved(&mut self, json: String)
        ensures
            *final(self) == (AppState { last_saved_json: Some(json), ..*old(self) }),
    {
        self.last_saved_json = Some(json);
    }

    /// Opens project `p`, read from `path`, whose text as the serializer writes it is
    /// `saved_json`: restores the editor state saved with it, clears the selection and asks
    /// for a refit. Returns the saved zoom level and reference opacity, which the interface
    /// holds.
    pub fn open_loaded_project(&mut self, p: Project, path: std::path::PathBuf, saved_json: Option<String>) -> (r: (u32, u32))
        ensures
            opened(*old(self), *final(self), p, path, saved_json),
            r == (p.editor_state.zoom_level_bits, p.editor_state.reference_opacity_bits),
    {
        let tab = restored_tab(p.editor_state.active_tab.as_str(), &p.editor_state.active_character);
        self.active_character = p.editor_state.active_character.clone();
        self.current_animation = p.editor_state.current_animation;
        self.current_frame = p.editor_state.current_frame;
        self.view.show_grid = p.editor_state.show_grid;
        self.view.show_labels = p.editor_state.show_labels;
        self.view.reference_show_on_top = p.editor_state.reference_show_on_top;
        self.active_tab = tab;
        let r = (p.editor_state.zoom_level_bits, p.editor_state.reference_opacity_bits);
        self.last_saved_json = saved_json;
        self.project = Some(p);
        self.project_path = Some(path);
        self.selected_part_id = None;
        self.needs_zoom_fit = true;
        r
    }

    /// Starts a new project called "Untitled", whose text as the serializer writes it is
    /// `saved_json`; it has no file yet, nothing is selected or active and a refit is asked for.
    pub fn new_project(&mut self, saved_json: Option<String>)
        ensures
            final(self).project matches Some(p) && p.name@ == "Untitled"@ && p.characters@.len() == 0
                && p.animations@.len() == 0 && p.next_part_id == 1,
            *final(self) == (AppState {
                project: final(self).project,
                last_saved_json: saved_json,
                project_path: None,
                current_animation: 0,
                current_frame: 0,
                selected_part_id: None,
                active_character: None,
                needs_zoom_fit: true,
                ..*old(self) }),
    {
        let project = Project::new("Untitled");
        self.last_saved_json = saved_json;
        self.project = Some(project);
        self.project_path = None;
        self.current_animation = 0;
        self.current_frame = 0;
        self.selected_part_id = None;
        self.active_character = None;
        self.needs_zoom_fit = true;
    }

    /// Closes the project and goes back to the canvas tab.
    pub fn close_project(&mut self)
        ensures
            *final(self) == (AppState {
                project: None,
                project_path: None,
                last_saved_json: None,
                current_animation: 0,
                current_frame: 0,
                selected_part_id: None,
                active_character: None,
                active_tab: ActiveTab::Canvas,
                ..*old(self) }),
    {
        self.project = None;
        self.project_path = None;
        self.last_saved_json = None;
        self.current_animation = 0;
        self.current_frame = 0;
        self.selected_part_id = None;
        self.active_character = None;
        self.active_tab = ActiveTab::Canvas;
    }

    /// Whether the open project differs from what was last saved, given `current_json`, the
    /// project's text as the serializer writes it now (`None` when it cannot be written):
    /// a project never saved always does; without a project nothing does.
    pub fn has_unsaved_changes(&self, current_json: &Option<String>) -> (r: bool)
        ensures
            r == match (self.project, self.last_saved_json) {
                (Some(_), Some(saved)) => !(current_json matches Some(j) && j@ == saved@),
                (Some(_), None) => true,
                _ => false,
            },
    {
        match (&self.project, &self.last_saved_json) {
            (Some(_), Some(saved)) => match current_json {
                Some(j) => !(*j == *saved),
                None => true,
            },
            (Some(_), None) => true,
            _ => false,
        }
    }

    /// Asks for `action`: with unsaved changes it waits for the user's answer and `false` is
    /// returned; otherwise it is to be carried out now and `true` is returned.
    pub fn request_action(&mut self, action: PendingAction, unsaved: bool) -> (proceed: bool)
        ensures
            proceed == !unsaved,
            unsaved ==> *final(self) == (AppState { pending_action: Some(action), ..*old(self) }),
            !unsaved ==> *final(self) == *old(self),
    {
        if unsaved {
            self.pending_action = Some(action);
            false
        } else {
            true
        }
    }
}

/// Title of the dialog asking about unsaved changes before `a`.
pub open spec fn pending_title(a: PendingAction) -> Seq<char> {
    match a {
        PendingAction::CloseProject => "Close Project?"@,
        PendingAction::NewProject => "Create New Project?"@,
        PendingAction::OpenProject => "Open Project?"@,
        PendingAction::Exit => "Exit Application?"@,
    }
}

/// What the unsaved-changes dialog says the user is about to do.
pub open spec fn pending_activity(a: PendingAction) -> Seq<char> {
    match a {
        PendingAction::CloseProject => "closing"@,
        PendingAction::NewProject => "creating a new project"@,
        PendingAction::OpenProject => "opening another project"@,
        PendingAction::Exit => "exiting"@,
    }
}

/// Label of the button that goes on without saving.
pub open spec fn pending_continue_label(a: PendingAction) -> Seq<char> {
    match a {
        PendingAction::CloseProject => "Close Without Saving"@,
        PendingAction::NewProject => "Don't Save"@,
        PendingAction::OpenProject => "Don't Save"@,
        PendingAction::Exit => "Exit Without Saving"@,
    }
}

/// (title, activity, continue label) of the unsaved-changes dialog for `a`.
pub fn pending_dialog_texts(a: PendingAction) -> (r: (String, String, String))
    ensures
        r.0@ == pending_title(a),
        r.1@ == pending_activity(a),
        r.2@ == pending_continue_label(a),
{
    proof {
        reveal_strlit("Close Project?");
        reveal_strlit("Create New Project?");
        reveal_strlit("Open Project?");
        reveal_strlit("Exit Application?");
        reveal_strlit("closing");
        reveal_strlit("creating a new project");
        reveal_strlit("opening another project");
        reveal_strlit("exiting");
        reveal_strlit("Close Without Saving");
        reveal_strlit("Don't Save");
        reveal_strlit("Exit Without Saving");
    }
    match a {
        PendingAction::CloseProject => ("Close Project?".to_owned(), "closing".to_owned(), "Close Without Saving".to_owned()),
        PendingAction::NewProject => ("Create New Project?".to_owned(), "creating a new project".to_owned(), "Don't Save".to_owned()),
        PendingAction::OpenProject => ("Open Project?".to_owned(), "opening another project".to_owned(), "Don't Save".to_owned()),
        PendingAction::Exit => ("Exit Application?".to_owned(), "exiting".to_owned(), "Exit Without Saving".to_owned()),
    }
}

/// The title shown for a recent project: the project's name, unless it could not be read,
/// is empty or is "Untitled", in which case the file name.
pub open spec fn card_title(project_name: Option<String>, file_name: Seq<char>) -> Seq<char> {
    match project_name {
        Some(n) => if n@.len() > 0 && n@ != "Untitled"@ { n@ } else { file_name },
        None => file_name,
    }
}

/// The title shown for a recent project.
pub fn recent_card_title(project_name: &Option<String>, file_name: &str) -> (r: String)
    ensures
        r@ == card_title(*project_name, file_name@),
{
    match project_name {
        Some(n) => {
            if n.as_str().is_empty() || *n == "Untitled".to_owned() {
                file_name.to_owned()
            } else {
                n.clone()
            }
        },
        None => file_name.to_owned(),
    }
}

/// Whether `s` contains `part` somewhere.
pub open spec fn contains_text(s: Seq<char>, part: Seq<char>) -> bool {
    exists|i: int| 0 <= i && i + part.len() <= s.len() && #[trigger] s.subrange(i, i + part.len()) == part
}

/// Whether a failed load failed to read the file, after which the project leaves the recent list.
pub fn is_read_failure(error: &str) -> (r: bool)
    ensures
        r == contains_text(error@, "Read error"@),
{
    proof { reveal_strlit("Read error"); }
    let key = "Read error".to_owned();
    let n = error.unicode_len();
    let m: usize = 10;
    if n < m {
        proof {
            assert forall|i: int| 0 <= i && i + 10 <= error@.len() implies
                #[trigger] error@.subrange(i, i + 10) != "Read error"@ by {}
        }
        return false;
    }
    let mut i: usize = 0;
    while i <= n - m
        invariant
            n == error@.len(),
            m == 10,
            m <= n,
            i <= n - m + 1,
            key@ == "Read error"@,
            "Read error"@.len() == 10,
            forall|j: int| 0 <= j < i ==> #[trigger] error@.subrange(j, j + 10) != "Read error"@,
        decreases n - i,
    {
        let piece = error.substring_char(i, i + m);
        if piece.to_owned() == key {
            return true;
        }
        i = i + 1;
    }
    proof {
        assert forall|j: int| 0 <= j && j + 10 <= error@.len() implies
            #[trigger] error@.subrange(j, j + 10) != "Read error"@ by {
            assert(j < i);
        }
    }
    false
}

/// The window title: the project's name, the file it is saved in ("unknown" when the path
/// names no file) and " *" when there are unsaved changes.
pub open spec fn title_text(project_name: Option<String>, path_file: Option<Option<String>>, dirty: bool) -> Seq<char> {
    let mark = if dirty { " *"@ } else { ""@ };
    match project_name {
        Some(n) => match path_file {
            Some(f) => {
                let file = match f { Some(x) => x@, None => "unknown"@ };
                n@ + " - "@ + file + mark + " - Pixel Sprite Studio"@
            },
            None => n@ + mark + " - Pixel Sprite Studio"@,
        },
        None => "Pixel Sprite Studio"@,
    }
}

/// The window title for the open project `project_name`, saved in a file of the name in
/// `path_file` when it has a path, with unsaved changes when `dirty`.
pub fn window_title(project_name: &Option<String>, path_file: &Option<Option<String>>, dirty: bool) -> (r: String)
    ensures
        r@ == title_text(*project_name, *path_file, dirty),
{
    let n = match project_name {
        Some(n) => n,
        None => { return "Pixel Sprite Studio".to_owned(); },
    };
    let mut t = n.clone();
    let ghost file: Seq<char> = match path_file {
        Some(f) => " - "@ + match f { Some(x) => x@, None => "unknown"@ },
        None => Seq::empty(),
    };
    match path_file {
        Some(f) => {
            t.append(" - ");
            match f {
                Some(x) => { t.append(x.as_str()); },
                None => { t.append("unknown"); },
            }
        },
        None => {},
    }
    assert(t@ =~= n@ + file);
    let ghost mark: Seq<char> = if dirty { " *"@ } else { ""@ };
    if dirty {
        t.append(" *");
    }
    proof { reveal_strlit(""); }
    assert(t@ =~= n@ + file + mark);
    t.append(" - Pixel Sprite Studio");
    assert(t@ =~= title_text(*project_name, *path_file, dirty));
    t
}

} // verus!
