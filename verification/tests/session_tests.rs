use pixel_sprite_studio::session::AppState;
use pixel_sprite_studio::types::{ActiveTab, ContextMenuTarget, PendingAction};
use pixel_sprite_studio::config::{AppConfig, MAX_RECENT_PROJECTS};
use pixel_sprite_studio::persist::{active_tab_name, restored_tab, pending_dialog_texts, recent_card_title, is_read_failure, window_title};
use pixel_sprite_studio::canvas::{CanvasHit, pick_clicked_layer};
use pixel_sprite_studio::layers::unique_layer_name;
use pixel_sprite_studio::browser::gallery_item;
use pixel_sprite_studio::model::{Part, BITS_ONE};

/// A state with a new project holding character "Hero", active, on its first frame.
fn with_hero() -> AppState {
    let mut s = AppState::new();
    s.new_project(Some("{}".to_string()));
    let st = s.add_new_character("Hero");
    assert!(st.is_some());
    s
}

fn is_canvas(t: &ActiveTab) -> bool {
    matches!(t, ActiveTab::Canvas)
}

fn editor_of(t: &ActiveTab) -> Option<&str> {
    match t {
        ActiveTab::CharacterEditor(n) => Some(n.as_str()),
        ActiveTab::Canvas => None,
    }
}

fn layer_names(s: &AppState) -> Vec<String> {
    s.current_frame_ref().unwrap().placed_parts.iter().map(|p| p.layer_name.clone()).collect()
}

fn layer_ids(s: &AppState) -> Vec<u64> {
    s.current_frame_ref().unwrap().placed_parts.iter().map(|p| p.id).collect()
}

#[test]
fn new_state_shows_the_canvas_without_a_project() {
    let s = AppState::new();
    assert!(s.project.is_none());
    assert!(is_canvas(&s.active_tab));
    assert_eq!(s.total_frames(), 1);
    assert!(s.view.show_grid && s.view.pixel_aligned);
}

#[test]
fn placing_a_part_numbers_repeated_layer_names() {
    let mut s = with_hero();
    assert!(s.place_part_on_canvas("Hero", "arm", "default", (0, 0)));
    assert!(s.place_part_on_canvas("Hero", "arm", "default", (0, 0)));
    assert!(s.place_part_on_canvas("Hero", "arm", "default", (0, 0)));
    assert!(s.place_part_on_canvas("Hero", "leg", "default", (0, 0)));
    assert_eq!(layer_names(&s), vec!["arm", "arm 2", "arm 3", "leg"]);
    assert_eq!(layer_ids(&s), vec![1, 2, 3, 4]);
    assert_eq!(s.selected_part_id, Some(4));
}

#[test]
fn unique_layer_name_skips_taken_numbers() {
    let existing = vec!["arm".to_string(), "arm 2".to_string(), "arm 4".to_string()];
    assert_eq!(unique_layer_name(&existing, "arm"), "arm 3");
    assert_eq!(unique_layer_name(&existing, "leg"), "leg");
}

#[test]
fn placing_without_a_project_does_nothing() {
    let mut s = AppState::new();
    assert!(!s.place_part_on_canvas("Hero", "arm", "default", (0, 0)));
    assert!(s.project.is_none());
}

#[test]
fn deleting_a_layer_removes_its_id_only() {
    let mut s = with_hero();
    s.place_part_on_canvas("Hero", "arm", "default", (0, 0));
    s.place_part_on_canvas("Hero", "leg", "default", (0, 0));
    let msg = s.delete_layer(1, "arm");
    assert_eq!(msg.as_deref(), Some("Deleted layer 'arm'"));
    assert_eq!(layer_ids(&s), vec![2]);
    assert_eq!(s.selected_part_id, Some(2));
    s.delete_selected_part();
    assert!(layer_ids(&s).is_empty());
    assert_eq!(s.selected_part_id, None);
}

#[test]
fn moving_a_layer_up_then_down_restores_the_order() {
    let mut s = with_hero();
    for p in ["a", "b", "c"] {
        s.place_part_on_canvas("Hero", p, "default", (0, 0));
    }
    s.move_current_layer_up(0);
    assert_eq!(layer_names(&s), vec!["b", "a", "c"]);
    s.move_current_layer_down(1);
    assert_eq!(layer_names(&s), vec!["a", "b", "c"]);
    s.move_current_layer_to_top(0);
    assert_eq!(layer_names(&s), vec!["b", "c", "a"]);
    s.move_current_layer_to_bottom(2);
    assert_eq!(layer_names(&s), vec!["a", "b", "c"]);
    s.move_current_layer_up(2);
    assert_eq!(layer_names(&s), vec!["a", "b", "c"]);
    s.toggle_current_layer_visibility(1);
    assert!(!s.current_frame_ref().unwrap().placed_parts[1].visible);
}

#[test]
fn frame_steps_wrap_round_and_undo_each_other() {
    let mut s = with_hero();
    s.add_blank_frame();
    s.add_blank_frame();
    assert_eq!(s.total_frames(), 3);
    s.select_frame(2);
    s.next_frame_wrapping();
    assert_eq!(s.current_frame, 0);
    s.previous_frame_wrapping();
    assert_eq!(s.current_frame, 2);
    s.step_forward();
    assert_eq!(s.current_frame, 2);
    s.step_back();
    assert_eq!(s.current_frame, 1);
    s.advance_playback();
    assert_eq!(s.current_frame, 2);
    s.toggle_play();
    assert!(s.is_playing);
    s.stop_playback();
    assert!(!s.is_playing);
    assert_eq!(s.current_frame, 0);
}

#[test]
fn frame_rate_is_kept_between_1_and_60() {
    let mut s = with_hero();
    s.set_current_fps(0);
    assert_eq!(s.current_animation().unwrap().fps, 1);
    s.set_current_fps(200);
    assert_eq!(s.current_animation().unwrap().fps, 60);
    s.set_current_fps(24);
    assert_eq!(s.current_animation().unwrap().fps, 24);
}

#[test]
fn duplicated_frame_gets_fresh_ids() {
    let mut s = with_hero();
    s.place_part_on_canvas("Hero", "arm", "default", (0, 0));
    s.place_part_on_canvas("Hero", "leg", "default", (0, 0));
    s.duplicate_last_frame();
    let a = s.current_animation().unwrap();
    assert_eq!(a.frames.len(), 2);
    let ids: Vec<u64> = a.frames[1].placed_parts.iter().map(|p| p.id).collect();
    assert_eq!(ids, vec![3, 4]);
    assert_eq!(a.frames[1].placed_parts[0].layer_name, "arm");
    assert_eq!(s.project.as_ref().unwrap().next_part_id, 5);
}

#[test]
fn the_only_frame_cannot_be_deleted() {
    let mut s = with_hero();
    assert_eq!(s.delete_frame("Hero", 0, 0).as_deref(), Some("Cannot delete the only frame"));
    s.add_blank_frame();
    s.select_frame(1);
    assert_eq!(s.delete_frame("Hero", 0, 0).as_deref(), Some("Deleted frame 1"));
    assert_eq!(s.current_frame, 0);
    assert_eq!(s.delete_frame("Nobody", 0, 0), None);
}

#[test]
fn confirming_delete_of_a_character_clears_it() {
    let mut s = with_hero();
    s.open_delete_character_dialog();
    assert!(s.dialogs.show_delete_confirm_dialog);
    let msg = s.confirm_delete();
    assert_eq!(msg.as_deref(), Some("Deleted character 'Hero'"));
    assert!(!s.dialogs.show_delete_confirm_dialog);
    assert!(s.dialogs.context_menu_target.is_none());
    assert!(s.active_character.is_none());
    assert!(is_canvas(&s.active_tab));
    assert!(s.project.as_ref().unwrap().characters.is_empty());
}

#[test]
fn confirming_rename_needs_a_name() {
    let mut s = with_hero();
    s.open_rename_character_dialog();
    assert_eq!(s.dialogs.rename_new_name, "Hero");
    s.dialogs.rename_new_name = String::new();
    assert_eq!(s.confirm_rename(), None);
    assert!(s.dialogs.show_rename_dialog);
    s.dialogs.rename_new_name = "Knight".to_string();
    assert_eq!(s.confirm_rename().as_deref(), Some("Renamed character to 'Knight'"));
    assert_eq!(s.active_character.as_deref(), Some("Knight"));
    assert!(!s.dialogs.show_rename_dialog);
}

#[test]
fn renaming_a_frame_does_nothing() {
    let mut s = with_hero();
    s.dialogs.context_menu_target = Some(ContextMenuTarget::Frame { char_name: "Hero".to_string(), anim_index: 0, frame_index: 0 });
    s.dialogs.rename_new_name = "x".to_string();
    s.dialogs.show_rename_dialog = true;
    assert_eq!(s.confirm_rename(), None);
    assert!(!s.dialogs.show_rename_dialog);
}

#[test]
fn clone_dialog_offers_a_copy_name() {
    let mut s = with_hero();
    s.open_clone_dialog();
    assert_eq!(s.dialogs.clone_character_name, "Hero (copy)");
    assert_eq!(s.dialogs.clone_source_character.as_deref(), Some("Hero"));
    assert!(s.dialogs.show_clone_character_dialog);
}

#[test]
fn recent_list_puts_the_opened_project_first_once() {
    let mut c = AppConfig::default();
    assert_eq!(c.ui_scale_bits, BITS_ONE);
    for i in 0..12 {
        c.add_recent(&format!("p{}", i));
    }
    assert_eq!(c.recent_projects.len(), MAX_RECENT_PROJECTS);
    assert_eq!(c.recent_projects[0], "p11");
    c.add_recent("p5");
    assert_eq!(c.recent_projects[0], "p5");
    assert_eq!(c.recent_projects.iter().filter(|p| *p == "p5").count(), 1);
    assert_eq!(c.recent_projects.len(), MAX_RECENT_PROJECTS);
    c.remove_recent("p5");
    assert!(!c.recent_projects.contains(&"p5".to_string()));
    assert_eq!(c.recent_projects.len(), MAX_RECENT_PROJECTS - 1);
}

#[test]
fn editor_state_round_trips_through_save_and_open() {
    let mut s = with_hero();
    s.project_path = Some(std::path::PathBuf::from("/tmp/x.pss"));
    s.current_frame = 0;
    s.view.show_grid = false;
    assert!(s.prepare_save(0x4000_0000, 0x3f00_0000).is_ok());
    let saved = s.project.take().unwrap();
    assert_eq!(saved.editor_state.active_tab, "editor");
    let mut t = AppState::new();
    let (zoom, opacity) = t.open_loaded_project(saved, std::path::PathBuf::from("/tmp/x.pss"), Some("j".to_string()));
    assert_eq!((zoom, opacity), (0x4000_0000, 0x3f00_0000));
    assert_eq!(t.active_character.as_deref(), Some("Hero"));
    assert_eq!(editor_of(&t.active_tab), Some("Hero"));
    assert!(!t.view.show_grid);
    assert!(t.needs_zoom_fit);
    assert!(!t.has_unsaved_changes(&Some("j".to_string())));
    assert!(t.has_unsaved_changes(&Some("k".to_string())));
}

#[test]
fn editor_tab_of_another_character_comes_back_as_the_active_ones() {
    assert_eq!(editor_of(&restored_tab("editor", &Some("A".to_string()))), Some("A"));
    assert!(is_canvas(&restored_tab("editor", &None)));
    assert!(is_canvas(&restored_tab("canvas", &Some("A".to_string()))));
    assert_eq!(active_tab_name(&ActiveTab::CharacterEditor("B".to_string())), "editor");
    assert_eq!(active_tab_name(&ActiveTab::Canvas), "canvas");
}

#[test]
fn saving_needs_a_project_and_a_file() {
    let mut s = AppState::new();
    assert_eq!(s.prepare_save(0, 0), Err("No project to save".to_string()));
    s.new_project(None);
    assert_eq!(s.prepare_save(0, 0), Err("No file path set".to_string()));
    assert!(s.has_unsaved_changes(&Some("x".to_string())));
}

#[test]
fn unsaved_changes_hold_an_action_back() {
    let mut s = AppState::new();
    assert!(s.request_action(PendingAction::Exit, false));
    assert!(s.pending_action.is_none());
    assert!(!s.request_action(PendingAction::CloseProject, true));
    assert_eq!(s.pending_action, Some(PendingAction::CloseProject));
    let (title, activity, label) = pending_dialog_texts(PendingAction::OpenProject);
    assert_eq!(title, "Open Project?");
    assert_eq!(activity, "opening another project");
    assert_eq!(label, "Don't Save");
}

#[test]
fn closing_returns_to_the_welcome_state() {
    let mut s = with_hero();
    s.close_project();
    assert!(s.project.is_none());
    assert!(s.active_character.is_none());
    assert!(is_canvas(&s.active_tab));
}

#[test]
fn recent_cards_and_read_failures() {
    assert_eq!(recent_card_title(&Some("Knights".to_string()), "k.pss"), "Knights");
    assert_eq!(recent_card_title(&Some("Untitled".to_string()), "k.pss"), "k.pss");
    assert_eq!(recent_card_title(&None, "k.pss"), "k.pss");
    assert!(is_read_failure("Read error: not found"));
    assert!(is_read_failure("x Read error"));
    assert!(!is_read_failure("Parse error: bad"));
    assert!(!is_read_failure("Read"));
}

fn hit(id: u64, image: Option<String>) -> CanvasHit {
    CanvasHit {
        id,
        character_name: "Hero".to_string(),
        part_name: format!("p{}", id),
        state_name: "default".to_string(),
        image_data: image,
        pixel: (0, 0),
    }
}

#[test]
fn click_picks_the_topmost_solid_layer() {
    assert_eq!(pick_clicked_layer(&vec![]), None);
    assert_eq!(pick_clicked_layer(&vec![hit(5, None), hit(6, None)]), Some(5));
    let bad = Some("not an image".to_string());
    assert_eq!(pick_clicked_layer(&vec![hit(5, bad.clone()), hit(6, None)]), Some(6));
    assert_eq!(pick_clicked_layer(&vec![hit(5, bad.clone()), hit(6, bad)]), Some(5));
}

#[test]
fn double_click_on_the_clicked_layer_opens_its_part() {
    let mut s = with_hero();
    s.active_tab = ActiveTab::Canvas;
    let hits = vec![hit(3, None)];
    s.apply_click(pick_clicked_layer(&hits));
    assert_eq!(s.selected_part_id, Some(3));
    s.apply_double_click(Some(9), &hits);
    assert!(is_canvas(&s.active_tab));
    s.apply_double_click(s.pointer.last_clicked_part_id, &hits);
    assert_eq!(editor_of(&s.active_tab), Some("Hero"));
    assert_eq!(s.editor_selected_part.as_deref(), Some("p3"));
    assert_eq!(s.editor_selected_state.as_deref(), Some("default"));
}

#[test]
fn inspector_changes_the_selected_layer() {
    let mut s = with_hero();
    s.add_part_to_edited("arm");
    s.place_part_on_canvas("Hero", "arm", "default", (0, 0));
    assert_eq!(s.selected_part_states(), vec!["default".to_string()]);
    s.set_selected_rotation(90);
    s.set_selected_state("raised");
    let p = s.get_selected_placed_part().unwrap();
    assert_eq!(p.rotation, 90);
    assert_eq!(p.state_name, "raised");
    assert_eq!(s.selected_layer_index(), Some(0));
}

#[test]
fn gallery_shows_the_first_state_and_its_front_image() {
    let mut part = Part::new("arm");
    let (name, state, thumb) = gallery_item(&part);
    assert_eq!((name.as_str(), state.as_str(), thumb), ("arm", "default", None));
    part.states.clear();
    assert_eq!(gallery_item(&part).1, "default");
}

#[test]
fn selecting_a_character_resets_the_view() {
    let mut s = with_hero();
    s.add_part_to_edited("arm");
    s.current_frame = 3;
    s.select_character_at(0);
    assert_eq!(s.active_character.as_deref(), Some("Hero"));
    assert_eq!(s.editor_selected_part.as_deref(), Some("arm"));
    assert_eq!(s.current_frame, 0);
    s.select_character_at(7);
    assert_eq!(s.active_character.as_deref(), Some("Hero"));
}

#[test]
fn editor_rename_refuses_taken_names_and_sizes_are_clamped() {
    let mut s = with_hero();
    s.add_new_character("Villain");
    s.rename_edited_character("Villain", "Hero");
    assert_eq!(s.active_character.as_deref(), Some("Villain"));
    s.rename_edited_character("Villain", "Rogue");
    assert_eq!(s.active_character.as_deref(), Some("Rogue"));
    assert_eq!(editor_of(&s.active_tab), Some("Rogue"));
    s.set_frame_size("Rogue", 2, 900);
    assert_eq!(s.project.as_ref().unwrap().get_character("Rogue").unwrap().canvas_size, (8, 512));
}

#[test]
fn rotation_import_stores_the_image() {
    let mut s = with_hero();
    s.add_part_to_edited("arm");
    s.request_rotation_import(45);
    assert_eq!(s.dialogs.pending_rotation_import, Some(45));
    let msg = s.finish_rotation_import(45, Ok("DATA".to_string()));
    assert_eq!(msg.as_deref(), Some("Imported image for 45°"));
    assert!(s.dialogs.pending_rotation_import.is_none());
    let p = s.project.as_ref().unwrap().get_character("Hero").unwrap().get_part("arm").unwrap();
    assert_eq!(p.states[0].get_rotation(45).unwrap().image_data.as_deref(), Some("DATA"));
    let rows = s.editor_state_rows("Hero");
    assert_eq!(rows, vec![("default".to_string(), true)]);
    assert_eq!(s.finish_rotation_import(44, Ok("X".to_string())), None);
    assert_eq!(s.finish_rotation_import(0, Err("gone".to_string())).as_deref(), Some("Import failed: gone"));
}

#[test]
fn import_dialog_needs_its_selection() {
    let mut s = with_hero();
    s.dialogs.show_import_image_dialog = true;
    assert_eq!(s.finish_image_import(Ok("D".to_string())).as_deref(), Some("Missing selection context"));
    assert!(!s.dialogs.show_import_image_dialog);
    s.add_part_to_edited("arm");
    s.dialogs.selected_character_for_part = Some("Hero".to_string());
    s.dialogs.selected_part_for_state = Some("arm".to_string());
    s.dialogs.selected_state_for_import = Some("default".to_string());
    s.dialogs.selected_rotation_for_import = 90;
    assert_eq!(s.finish_image_import(Ok("D".to_string())).as_deref(), Some("Image imported for 90° rotation"));
    assert!(s.dialogs.selected_part_for_state.is_none());
}

#[test]
fn reference_settings_are_copied_to_other_frames() {
    let mut s = with_hero();
    s.add_blank_frame();
    s.add_blank_frame();
    s.select_frame(1);
    assert!(s.set_frame_reference("ref.png".to_string(), BITS_ONE));
    s.select_frame(2);
    assert!(s.set_frame_reference("other.png".to_string(), 0));
    s.select_frame(1);
    assert_eq!(s.copy_reference_to_all().as_deref(), Some("Copied settings to 1 other frames"));
    let frames = &s.current_animation().unwrap().frames;
    assert_eq!(frames[2].reference.as_ref().unwrap().scale_bits, BITS_ONE);
    assert_eq!(frames[2].reference.as_ref().unwrap().file_path, "other.png");
    assert!(frames[0].reference.is_none());
    assert!(s.clear_frame_reference());
    assert_eq!(s.copy_reference_to_all(), None);
}

#[test]
fn window_titles() {
    let name = Some("Knights".to_string());
    assert_eq!(window_title(&name, &Some(Some("k.pss".to_string())), true), "Knights - k.pss * - Pixel Sprite Studio");
    assert_eq!(window_title(&name, &Some(None), false), "Knights - unknown - Pixel Sprite Studio");
    assert_eq!(window_title(&name, &None, true), "Knights * - Pixel Sprite Studio");
    assert_eq!(window_title(&None, &None, true), "Pixel Sprite Studio");
}

#[test]
fn ids_stay_fresh_across_placing_and_duplicating() {
    let mut s = with_hero();
    s.place_part_on_canvas("Hero", "arm", "default", (0, 0));
    s.duplicate_last_frame();
    s.select_frame(1);
    s.place_part_on_canvas("Hero", "leg", "default", (0, 0));
    s.duplicate_last_frame();
    let p = s.project.as_ref().unwrap();
    let mut ids: Vec<u64> = p.characters[0].animations[0]
        .frames
        .iter()
        .flat_map(|f| f.placed_parts.iter().map(|l| l.id))
        .collect();
    assert!(ids.iter().all(|id| *id < p.next_part_id));
    let n = ids.len();
    ids.sort();
    ids.dedup();
    assert_eq!(ids.len(), n);
}

#[test]
fn the_wheel_shows_the_rotations_of_the_selected_state_in_order() {
    let mut s = with_hero();
    assert!(s.editor_wheel_slots("Hero").is_empty());
    let mut arm = Part::new("arm");
    arm.states[0].rotations.insert(90, pixel_sprite_studio::model::Rotation::with_image(90, "img".to_string()));
    s.project.as_mut().unwrap().characters[0].add_part(arm);
    s.select_editor_part("arm");
    let slots = s.editor_wheel_slots("Hero");
    let angles: Vec<u16> = slots.iter().map(|(a, _)| *a).collect();
    assert_eq!(angles, vec![0, 45, 90, 135, 180, 225, 270, 315]);
    assert_eq!(slots.iter().filter(|(_, has)| *has).count(), 1);
    assert_eq!(slots[2], (90, true));
    s.select_editor_state("missing");
    assert!(s.editor_wheel_slots("Hero").is_empty());
    assert!(s.editor_wheel_slots("Nobody").is_empty());
}
