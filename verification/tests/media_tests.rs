use base64::Engine;
use pixel_sprite_studio::imaging::{alpha_at, decode_base64_rgba, decode_image_bytes, fit_pixels, fitted_image_base64, image_as_base64, is_pixel_opaque, make_yellow, reference_pixels};
use pixel_sprite_studio::export::{animation_sheet_path, animations_to_export, sheet_metadata, ceil_sqrt, frame_origin, json_path_for, placed_image_data, png_output_path, safe_file_name, sheet_layout};
use pixel_sprite_studio::model::{Animation, Character, Part, PlacedPart, Rotation};
use pixel_sprite_studio::project::Project;
use pixel_sprite_studio::session::AppState;

/// A 2x1 PNG whose left pixel is opaque red and right pixel fully transparent, as base64.
fn two_pixel_png() -> String {
    let mut img = image::RgbaImage::new(2, 1);
    img.put_pixel(0, 0, image::Rgba([255, 0, 0, 255]));
    img.put_pixel(1, 0, image::Rgba([0, 0, 255, 0]));
    let mut bytes = Vec::new();
    img.write_to(&mut std::io::Cursor::new(&mut bytes), image::ImageFormat::Png).unwrap();
    base64::engine::general_purpose::STANDARD.encode(&bytes)
}

#[test]
fn opaque_pixels_are_found() {
    let data = two_pixel_png();
    assert!(is_pixel_opaque(&data, 0, 0));
    assert!(!is_pixel_opaque(&data, 1, 0));
    assert!(!is_pixel_opaque(&data, 2, 0));
    assert!(!is_pixel_opaque(&data, 0, 1));
}

#[test]
fn undecodable_data_is_never_opaque() {
    assert!(!is_pixel_opaque("***", 0, 0));
    let not_png = base64::engine::general_purpose::STANDARD.encode(b"hello");
    assert!(!is_pixel_opaque(&not_png, 0, 0));
}

#[test]
fn decoding_gives_size_and_pixels_or_the_failing_step() {
    let (w, h, px) = decode_base64_rgba(&two_pixel_png()).unwrap();
    assert_eq!((w, h), (2, 1));
    assert_eq!(px, vec![255, 0, 0, 255, 0, 0, 255, 0]);
    assert!(decode_base64_rgba("***").unwrap_err().starts_with("Failed to decode base64: "));
    let not_png = base64::engine::general_purpose::STANDARD.encode(b"hello");
    assert!(decode_base64_rgba(&not_png).unwrap_err().starts_with("Failed to load image: "));
}

#[test]
fn alpha_lookup_in_a_buffer() {
    let px = vec![0, 0, 0, 0, 9, 9, 9, 7];
    assert!(!alpha_at(2, 1, &px, 0, 0));
    assert!(alpha_at(2, 1, &px, 1, 0));
    assert!(!alpha_at(2, 1, &px, 2, 0));
}

#[test]
fn yellow_silhouette_keeps_alpha() {
    let mut px = vec![10, 20, 30, 40, 50, 60, 70, 0];
    make_yellow(&mut px);
    assert_eq!(px, vec![255, 255, 0, 40, 255, 255, 0, 0]);
}

#[test]
fn sheet_layouts() {
    assert_eq!(sheet_layout(0), (0, 1));
    assert_eq!(sheet_layout(5), (5, 1));
    assert_eq!(sheet_layout(8), (8, 1));
    assert_eq!(sheet_layout(9), (3, 3));
    assert_eq!(sheet_layout(10), (4, 3));
    assert_eq!(sheet_layout(17), (5, 4));
    assert_eq!(ceil_sqrt(16), 4);
    assert_eq!(ceil_sqrt(17), 5);
    assert_eq!(ceil_sqrt(1), 1);
}

#[test]
fn frame_cells() {
    assert_eq!(frame_origin(0, 3, 32, 16), (0, 0));
    assert_eq!(frame_origin(4, 3, 32, 16), (32, 16));
    assert_eq!(frame_origin(8, 3, 32, 16), (64, 32));
}

#[test]
fn output_paths() {
    assert_eq!(png_output_path("out/walk"), "out/walk.png");
    assert_eq!(png_output_path("out/walk.PNG"), "out/walk.PNG");
    assert_eq!(png_output_path("out/walk.png"), "out/walk.png");
    assert_eq!(json_path_for("out/walk.png"), "out/walk.json");
    assert_eq!(json_path_for("a.png.png"), "a.json.json");
    assert_eq!(json_path_for("out/walk.PNG"), "out/walk.json");
    assert_eq!(json_path_for("out/walk.Png"), "out/walk.json");
    assert_eq!(json_path_for("shots.PNG/walk.png"), "shots.PNG/walk.json");
    assert_eq!(json_path_for("x.png.PNG"), "x.json.json");
    assert_eq!(json_path_for("dir.png/s.pNg"), "dir.json/s.json");
    assert_eq!(json_path_for("notes.txt"), "notes.txt");
    assert_eq!(safe_file_name("Walk cycle #1"), "Walk_cycle__1");
    assert_eq!(safe_file_name("run-fast_2"), "run-fast_2");
    assert_eq!(safe_file_name("héros"), "héros");
    assert_eq!(animation_sheet_path("out", "Hero", "walk"), "out/Hero_walk.png");
}

#[test]
fn layer_image_follows_names_state_and_angle() {
    let mut p = Project::new("P");
    let mut c = Character::new("Hero");
    let mut part = Part::new("arm");
    part.states[0].rotations.insert(90, Rotation::with_image(90, "IMG".to_string()));
    c.add_part(part);
    p.add_character(c);
    let mut layer = PlacedPart::new(1, "Hero", "arm", "default");
    assert_eq!(placed_image_data(&p, &layer), None);
    layer.rotation = 90;
    assert_eq!(placed_image_data(&p, &layer).as_deref(), Some("IMG"));
    layer.state_name = "other".to_string();
    assert_eq!(placed_image_data(&p, &layer), None);
}

#[test]
fn export_needs_a_frame_of_the_active_character() {
    let mut s = AppState::new();
    assert_eq!(s.export_character(), Err("No project loaded".to_string()));
    s.new_project(None);
    assert_eq!(s.export_animation(), Err("No character selected".to_string()));
    s.active_character = Some("Ghost".to_string());
    assert_eq!(s.export_animation(), Err("Character not found".to_string()));
    s.add_new_character("Hero");
    assert_eq!(s.export_animation(), Ok((0, 0)));
    s.current_animation = 4;
    assert_eq!(s.export_animation(), Err("Animation not found".to_string()));
    s.current_animation = 0;
    s.project.as_mut().unwrap().characters[0].animations[0].frames.clear();
    assert_eq!(s.export_animation(), Err("Animation has no frames".to_string()));
    assert_eq!(s.export_character(), Ok(0));
}

#[test]
fn every_frame_gets_its_own_cell() {
    for n in 1usize..=40 {
        let (cols, rows) = sheet_layout(n);
        let mut seen = std::collections::HashSet::new();
        for i in 0..n {
            let (x, y) = frame_origin(i, cols, 10, 20);
            assert!(x < cols as u32 * 10 && y < rows as u32 * 20);
            assert!(seen.insert((x, y)));
        }
    }
}

fn png_file(w: u32, h: u32, px: Vec<u8>) -> Vec<u8> {
    let img = image::DynamicImage::ImageRgba8(image::RgbaImage::from_raw(w, h, px).unwrap());
    let mut bytes: Vec<u8> = Vec::new();
    img.write_to(&mut std::io::Cursor::new(&mut bytes), image::ImageFormat::Png).unwrap();
    bytes
}

#[test]
fn the_metadata_path_never_is_the_sheet_path() {
    for p in ["s.png", "s.PNG", "dir.png/s.pNg", "x.png.PNG"] {
        let j = json_path_for(p);
        assert_ne!(j, p);
        assert!(j.ends_with(".json"));
    }
}

#[test]
fn image_file_bytes_decode_to_rgba() {
    let px = vec![1, 2, 3, 255, 4, 5, 6, 128];
    let file = png_file(2, 1, px.clone());
    assert_eq!(decode_image_bytes(&file), Ok((2, 1, px)));
    assert!(decode_image_bytes(b"not an image").is_err());
}

#[test]
fn an_encoded_png_decodes_to_the_same_pixels() {
    let px = vec![10, 20, 30, 255, 0, 0, 0, 0, 200, 100, 50, 77];
    let text = image_as_base64(3, 1, px.clone(), false).unwrap();
    assert_ne!(text.len(), px.len());
    assert_eq!(decode_base64_rgba(&text), Ok((3, 1, px)));
}

#[test]
fn an_encoded_jpeg_keeps_the_size() {
    let px = vec![255u8; 4 * 4 * 2];
    let text = image_as_base64(4, 2, px, true).unwrap();
    let bytes = base64::engine::general_purpose::STANDARD.decode(&text).unwrap();
    assert_eq!(&bytes[..2], &[0xFF, 0xD8]);
    let (w, h, out) = decode_base64_rgba(&text).unwrap();
    assert_eq!((w, h), (4, 2));
    assert_eq!(out.len(), 32);
}

#[test]
fn a_reference_is_drawn_from_its_file_first() {
    let file = png_file(1, 1, vec![9, 9, 9, 255]);
    let thumb = image_as_base64(2, 2, vec![0u8; 16], false).unwrap();
    let r = reference_pixels("ref.png", Some(&file), Some(&thumb)).unwrap();
    assert_eq!(r, (1, 1, vec![9, 9, 9, 255], (1, 1), false));
}

#[test]
fn a_reference_falls_back_to_its_thumbnail() {
    let thumb = image_as_base64(2, 1, vec![1, 1, 1, 255, 2, 2, 2, 255], false).unwrap();
    let r = reference_pixels("gone.png", None, Some(&thumb)).unwrap();
    assert_eq!(r, (2, 1, vec![1, 1, 1, 255, 2, 2, 2, 255], (2, 1), true));
    let r = reference_pixels("broken.png", Some(b"garbage"), Some(&thumb)).unwrap();
    assert!(r.4);
}

#[test]
fn reference_errors() {
    assert_eq!(
        reference_pixels("gone.png", None, None),
        Err("File not found and no thumbnail available: gone.png".to_string())
    );
    assert_eq!(
        reference_pixels("bad.png", Some(b"garbage"), None),
        Err("File not found and no thumbnail available: bad.png".to_string())
    );
    let e = reference_pixels("gone.png", None, Some("!!!")).unwrap_err();
    assert!(e.starts_with("Failed to decode thumbnail: "));
    let e = reference_pixels("gone.png", None, Some("aGVsbG8=")).unwrap_err();
    assert!(e.starts_with("Failed to load thumbnail: "));
}

#[test]
fn a_character_export_skips_animations_without_frames() {
    let mut c = Character::new("Hero");
    c.animations[0].frames.clear();
    c.animations.push(Animation::new("walk"));
    let mut empty = Animation::new("idle");
    empty.frames.clear();
    c.animations.push(empty);
    c.animations.push(Animation::new("run"));
    assert_eq!(animations_to_export(&c), vec![1, 3]);
}

#[test]
fn an_image_is_shrunk_only_when_a_fit_is_given() {
    let px: Vec<u8> = (0..32).collect();
    assert_eq!(fit_pixels(4, 2, px.clone(), None, false), (4, 2, px.clone()));
    let (w, h, out) = fit_pixels(4, 2, px.clone(), Some((2, 1)), false);
    assert_eq!((w, h), (2, 1));
    assert_eq!(out.len(), 8);
    let (w, h, out) = fit_pixels(4, 2, px, Some((2, 2)), true);
    assert_eq!((w, h), (2, 1));
    assert_eq!(out.len(), 8);
}

#[test]
fn a_fitted_image_is_written_at_its_new_size() {
    let px = vec![200u8; 4 * 6 * 3];
    let text = fitted_image_base64(6, 3, px.clone(), Some((2, 2)), false, false).unwrap();
    let (w, h, out) = decode_base64_rgba(&text).unwrap();
    assert_eq!((w, h), (2, 1));
    assert_eq!(out, vec![200u8; 8]);
    let same = fitted_image_base64(6, 3, px.clone(), None, false, false).unwrap();
    assert_eq!(same, image_as_base64(6, 3, px, false).unwrap());
}

#[test]
fn sheet_metadata_places_every_frame() {
    let mut walk = Animation::new("walk");
    for d in [120u32, 80, 60] {
        let mut f = walk.frames[0].clone();
        f.duration_ms = d;
        walk.frames.push(f);
    }
    let (cols, rows) = sheet_layout(walk.frames.len());
    let meta = sheet_metadata("Hero_walk.png", Some("Hero"), &walk, (32, 16), cols, rows);
    assert_eq!(meta.sprite_sheet, "Hero_walk.png");
    assert_eq!(meta.character.as_deref(), Some("Hero"));
    assert_eq!(meta.animation, "walk");
    assert_eq!((meta.frame_width, meta.frame_height, meta.columns, meta.rows), (32, 16, 4, 1));
    let places: Vec<(u32, u32, u32)> = meta.frames.iter().map(|f| (f.x, f.y, f.duration_ms)).collect();
    assert_eq!(places, vec![(0, 0, 100), (32, 0, 120), (64, 0, 80), (96, 0, 60)]);
    assert!(meta.frames.iter().all(|f| f.width == 32 && f.height == 16));
    let meta = sheet_metadata("walk.png", None, &walk, (32, 16), cols, rows);
    assert!(meta.character.is_none());
}
