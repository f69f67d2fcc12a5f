use pixel_sprite_studio::model::{Animation, Character, Part, PlacedPart, Rotation, RotationMode, State, default_canvas_size, default_fps, default_true, default_visible};
use pixel_sprite_studio::project::Project;
use pixel_sprite_studio::loading::{legacy_owner, max_id_in_characters};
use pixel_sprite_studio::text::{format_relative_secs, format_relative_time};

#[test]
fn test_project_creation() {
    let project = Project::new("Test Project");
    assert_eq!(project.name, "Test Project");
    assert_eq!(project.canvas_size, (64, 64));
    assert_eq!(project.version, "2.0");
    assert!(project.animations.is_empty());
}

#[test]
fn test_character_parts() {
    let mut char = Character::new("Hero");
    char.add_part(Part::new("head"));
    char.add_part(Part::new("torso"));

    assert_eq!(char.parts.len(), 2);
    assert!(char.get_part("head").is_some());
    assert!(char.get_part("torso").is_some());
}

#[test]
fn test_rotation_mirroring() {
    let mode = RotationMode::Deg45;
    assert_eq!(mode.mirror_angle(0), 0);
    assert_eq!(mode.mirror_angle(45), 315);
    assert_eq!(mode.mirror_angle(90), 270);
    assert_eq!(mode.mirror_angle(135), 225);
    assert_eq!(mode.mirror_angle(180), 180);
}

#[test]
fn mirroring_twice_gives_the_angle_back() {
    let mode = RotationMode::Deg45;
    for a in 0u16..360 {
        assert_eq!(mode.mirror_angle(mode.mirror_angle(a)), a);
    }
}

#[test]
fn mirrors_of_45_degree_angles_stay_in_the_mode() {
    let angles = RotationMode::Deg45.angles();
    assert_eq!(angles, vec![0, 45, 90, 135, 180, 225, 270, 315]);
    for a in &angles {
        assert!(angles.contains(&RotationMode::Deg45.mirror_angle(*a)));
    }
}

#[test]
fn mirrors_of_sixteen_angle_slots_stay_in_the_mode() {
    let angles = RotationMode::Deg22_5.angles();
    assert_eq!(angles.len(), 16);
    assert_eq!(angles[1], 22);
    assert_eq!(angles[15], 337);
    assert_eq!(RotationMode::Deg22_5.mirror_angle(0), 0);
    assert_eq!(RotationMode::Deg22_5.mirror_angle(22), 337);
    assert_eq!(RotationMode::Deg22_5.mirror_angle(67), 292);
    assert_eq!(RotationMode::Deg22_5.mirror_angle(180), 180);
    for a in &angles {
        let m = RotationMode::Deg22_5.mirror_angle(*a);
        assert!(angles.contains(&m));
        assert_eq!(RotationMode::Deg22_5.mirror_angle(m), *a);
    }
}

#[test]
fn angles_off_the_slots_are_reflected() {
    assert_eq!(RotationMode::Deg22_5.mirror_angle(10), 350);
    assert_eq!(RotationMode::Deg45.mirror_angle(10), 350);
    assert_eq!(RotationMode::Deg45.mirror_angle(360), 0);
}

#[test]
fn a_missing_rotation_is_supplied_from_its_mirror() {
    let mut s = State::new("walk", RotationMode::Deg45);
    s.rotations.remove(&90);
    s.rotations.insert(270, Rotation::with_image(270, "right".to_string()));
    let r = s.get_rotation(90).unwrap();
    assert_eq!(r.angle, 90);
    assert_eq!(r.image_data.as_deref(), Some("right"));
    assert!(r.is_mirrored);
    let own = s.get_rotation(270).unwrap();
    assert!(!own.is_mirrored);
}

#[test]
fn a_blank_rotation_takes_the_mirror_image() {
    let mut s = State::new("walk", RotationMode::Deg45);
    s.rotations.insert(45, Rotation::with_image(45, "left".to_string()));
    let r = s.get_rotation(315).unwrap();
    assert_eq!(r.angle, 315);
    assert_eq!(r.image_data.as_deref(), Some("left"));
    assert!(r.is_mirrored);
    assert!(s.get_rotation(300).is_none());
}

#[test]
fn step_of_each_mode() {
    assert_eq!(RotationMode::Deg45.step(), 45);
    assert_eq!(RotationMode::Deg22_5.step(), 22);
}

#[test]
fn new_state_has_a_blank_rotation_per_angle() {
    let s = State::new("idle", RotationMode::Deg45);
    assert_eq!(s.name, "idle");
    assert_eq!(s.rotations.len(), 8);
    assert!(s.get_rotation(90).is_some());
    assert!(s.get_rotation(91).is_none());
    assert!(!s.has_images());
}

#[test]
fn state_with_an_image_has_images() {
    let mut s = State::new("idle", RotationMode::Deg45);
    s.rotations.insert(45, Rotation::with_image(45, "abc".to_string()));
    assert!(s.has_images());
    let r = s.get_rotation(45).unwrap();
    assert_eq!(r.image_data.as_deref(), Some("abc"));
    assert!(!r.is_mirrored);
    assert!(Rotation::new(10).image_data.is_none());
}

#[test]
fn part_states_are_found_by_name() {
    let mut p = Part::new("arm");
    assert_eq!(p.states.len(), 1);
    assert_eq!(p.states[0].name, "default");
    p.add_state(State::new("raised", RotationMode::Deg22_5));
    assert!(p.get_state("raised").is_some());
    assert!(p.get_state("lowered").is_none());
    p.get_state_mut("raised").unwrap().name = "up".to_string();
    assert!(p.get_state("up").is_some());
}

#[test]
fn defaults_of_loaded_fields() {
    assert_eq!(default_canvas_size(), (64, 64));
    assert_eq!(default_fps(), 12);
    assert!(default_true());
    assert!(default_visible());
}

#[test]
fn new_character_has_an_untitled_animation() {
    let c = Character::new("Hero");
    assert_eq!(c.animations.len(), 1);
    assert_eq!(c.animations[0].name, "Untitled Animation");
    assert_eq!(c.animations[0].frames.len(), 1);
    assert_eq!(c.animations[0].fps, 12);
    assert_eq!(c.canvas_size, (64, 64));
}

#[test]
fn animation_frames_by_index() {
    let mut a = Animation::new("walk");
    a.add_frame();
    assert_eq!(a.frames.len(), 2);
    assert_eq!(a.frames[1].duration_ms, 100);
    assert!(a.get_frame(1).is_some());
    assert!(a.get_frame(2).is_none());
}

#[test]
fn next_id_hands_out_increasing_ids() {
    let mut p = Project::new("P");
    let a = p.next_id();
    let b = p.next_id();
    assert_eq!(a, 1);
    assert_eq!(b, 2);
    assert_eq!(p.next_part_id, 3);
}

fn frame_with(ids: &[(u64, &str)]) -> pixel_sprite_studio::model::Frame {
    let mut f = pixel_sprite_studio::model::Frame::new(100);
    for (id, ch) in ids {
        f.placed_parts.push(PlacedPart::new(*id, ch, "arm", "default"));
    }
    f
}

#[test]
fn loading_sets_next_id_past_every_placed_id() {
    let mut p = Project::new("P");
    let mut c = Character::new("Hero");
    c.animations[0].frames[0] = frame_with(&[(7, "Hero"), (3, "Hero")]);
    p.add_character(c);
    p.next_part_id = 1;
    assert_eq!(max_id_in_characters(&p.characters), 7);
    p.prepare_loaded();
    assert_eq!(p.next_part_id, 8);
    assert_eq!(p.version, "2.0");
}

#[test]
fn loading_hands_legacy_animations_to_their_owner() {
    let mut p = Project::new("P");
    p.version = "1.0".to_string();
    p.add_character(Character::new("Hero"));
    let mut hero_only = Animation::new("run");
    hero_only.frames[0] = frame_with(&[(1, "Hero")]);
    let mut mixed = Animation::new("fight");
    mixed.frames[0] = frame_with(&[(2, "Hero"), (3, "Villain")]);
    let orphan = Animation::new("empty");
    p.animations = vec![hero_only, mixed, orphan];
    p.prepare_loaded();
    assert!(p.animations.is_empty());
    assert_eq!(p.version, "2.0");
    let names: Vec<&str> = p.characters[0].animations.iter().map(|a| a.name.as_str()).collect();
    assert_eq!(names, vec!["Untitled Animation", "run", "fight (multi-char)"]);
    assert!(p.was_migrated());
}

#[test]
fn only_a_project_with_legacy_animations_counts_as_migrated() {
    let fresh = Project::new("Fresh");
    assert!(!fresh.was_migrated());
    let mut loaded = Project::new("Loaded");
    loaded.add_character(Character::new("Hero"));
    loaded.prepare_loaded();
    assert!(!loaded.was_migrated());
}

#[test]
fn loading_gives_an_animation_to_characters_left_without_one() {
    let mut p = Project::new("P");
    let mut c = Character::new("Lonely");
    c.animations.clear();
    p.add_character(c);
    p.animations = vec![Animation::new("nobody's")];
    p.prepare_loaded();
    assert_eq!(p.characters[0].animations.len(), 1);
    assert_eq!(p.characters[0].animations[0].name, "Untitled Animation");
}

#[test]
fn loading_moves_the_legacy_canvas_size_to_default_sized_characters() {
    let mut p = Project::new("P");
    p.canvas_size = (32, 48);
    p.add_character(Character::new("A"));
    let mut b = Character::new("B");
    b.canvas_size = (100, 100);
    p.add_character(b);
    p.prepare_loaded();
    assert_eq!(p.characters[0].canvas_size, (32, 48));
    assert_eq!(p.characters[1].canvas_size, (100, 100));
}

#[test]
fn legacy_owner_is_the_first_placed_part_owner() {
    let mut a = Animation::new("x");
    assert!(legacy_owner(&a).is_none());
    a.frames[0] = frame_with(&[(1, "B"), (2, "A")]);
    let (owner, several) = legacy_owner(&a).unwrap();
    assert_eq!(owner, "B");
    assert!(several);
}

#[test]
fn relative_time_texts() {
    assert_eq!(format_relative_secs(0), "just now");
    assert_eq!(format_relative_secs(2), "just now");
    assert_eq!(format_relative_secs(3), "3 seconds ago");
    assert_eq!(format_relative_secs(59), "59 seconds ago");
    assert_eq!(format_relative_secs(60), "1 minute ago");
    assert_eq!(format_relative_secs(150), "2 minutes ago");
    assert_eq!(format_relative_secs(3600), "1 hour ago");
    assert_eq!(format_relative_secs(7200), "2 hours ago");
    assert_eq!(format_relative_secs(86400), "1 day ago");
    assert_eq!(format_relative_secs(172800), "2 days ago");
}

#[test]
fn relative_time_of_a_duration_uses_its_whole_seconds() {
    assert_eq!(format_relative_time(std::time::Duration::from_millis(45_900)), "45 seconds ago");
    assert_eq!(format_relative_time(std::time::Duration::from_secs(3 * 86400)), "3 days ago");
}

fn saved_hero() -> Character {
    let mut c = Character::new("Hero");
    c.canvas_size = (32, 32);
    let mut walk = Animation::new("walk");
    walk.frames[0] = frame_with(&[(7, "Hero"), (9, "Hero")]);
    c.animations.push(walk);
    c
}

#[test]
fn a_project_read_back_from_its_file_comes_back_whole() {
    let mut saved = Project::new("Saved");
    saved.add_character(saved_hero());
    saved.editor_state.active_character = Some("Hero".to_string());
    let mut read = Project::new("Saved");
    read.add_character(saved_hero());
    read.editor_state.active_character = Some("Hero".to_string());
    read.prepare_loaded();
    assert_eq!(read.name, saved.name);
    assert_eq!(read.version, saved.version);
    assert_eq!(read.characters.len(), 1);
    assert_eq!(read.characters[0].name, "Hero");
    assert_eq!(read.characters[0].canvas_size, (32, 32));
    let names: Vec<&str> = read.characters[0].animations.iter().map(|a| a.name.as_str()).collect();
    assert_eq!(names, vec!["Untitled Animation", "walk"]);
    assert_eq!(read.characters[0].animations[1].frames[0].placed_parts.len(), 2);
    assert_eq!(read.editor_state.active_character.as_deref(), Some("Hero"));
    assert!(!read.was_migrated());
    assert_eq!(read.next_part_id, 10);
}
