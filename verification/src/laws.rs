use vstd::prelude::*;
use vstd::arithmetic::div_mod::{lemma_small_mod, lemma_mod_self_0, lemma_fundamental_div_mod};
use crate::export::{layer_image, sheet_grid, lemma_cell_in_grid, ends_with_png, png_to_json, lemma_png_to_json_ends_json};
use crate::model::{RotationMode, PlacedPart, first_index_of, lemma_first_index_of, part_names, state_names, Rotation, State, rotation_at, spec_angles, spec_mirror_angle, mode_mirror, index_in, lemma_index_in};
use crate::project::character_names;
use crate::session::{AppState, layer_placed};
use crate::edit::{parts_at, same_except_frame_parts, swap_adjacent, without_id};
use crate::playback::{last_frame_duplicated, is_renumbered_copy, renumbered, wrapped_next, wrapped_previous, clamped_fps, MIN_FPS, MAX_FPS};
use crate::config::{MAX_RECENT_PROJECTS, without_path, recent_after_open, lemma_without_path, lemma_without_path_distinct};
use crate::persist::{records, opened};
use crate::types::ActiveTab;
use crate::actions::frame_deleted;
use crate::canvas::{CanvasHit, click_choice, first_solid, hits_layer, lemma_first_solid};
use crate::imaging::{opaque_at, pixel_opaque, decoded_pixels};
use crate::text::decimal;
use crate::loading::{loaded_from, characters_parts, lemma_max_id, legacy_assigned, legacy_target, anim_parts};

verus! {

/// The angles of each rotation mode increase strictly.
proof fn lemma_angles_increase(mode: RotationMode)
    ensures
        forall|i: int, j: int| 0 <= i < j < spec_angles(mode).len()
            ==> #[trigger] spec_angles(mode)[i] < #[trigger] spec_angles(mode)[j],
{
    let s = spec_angles(mode);
    assert forall|i: int, j: int| 0 <= i < j < s.len() implies #[trigger] s[i] < #[trigger] s[j] by {
        match mode {
            RotationMode::Deg45 => {
                assert(45 * i < 45 * j);
                assert(45 * j <= 45 * 7);
            },
            RotationMode::Deg22_5 => {
                assert((i * 225) / 10 < (j * 225) / 10) by (nonlinear_arith)
                    requires 0 <= i < j;
                assert((j * 225) / 10 <= (15 * 225) / 10) by (nonlinear_arith)
                    requires 0 <= j < 16;
            },
        }
    }
}

/// In a strictly increasing sequence the index of an element is its position.
proof fn lemma_index_of_element(s: Seq<u16>, j: int)
    requires
        0 <= j < s.len(),
        forall|a: int, b: int| 0 <= a < b < s.len() ==> #[trigger] s[a] < #[trigger] s[b],
    ensures
        index_in(s, s[j]) == j,
{
    lemma_index_in(s, s[j]);
    let f = index_in(s, s[j]);
    assert(s.contains(s[j]));
    if f < j {
        assert(s[f] < s[j]);
    } else if f > j {
        assert(s[j] != s[j]);
    }
}

/// Every angle of a rotation mode mirrors to an angle of the same mode, and mirroring it again
/// gives it back; so each missing rotation of a state, of eight or of sixteen rotations, can
/// be generated from the rotation in its mirrored slot.
pub proof fn law_mirror_stays_in_mode(mode: RotationMode, angle: u16)
    requires
        spec_angles(mode).contains(angle),
    ensures
        spec_angles(mode).contains(mode_mirror(mode, angle)),
        mode_mirror(mode, mode_mirror(mode, angle)) == angle,
{
    let s = spec_angles(mode);
    let n = s.len() as int;
    lemma_angles_increase(mode);
    let w = choose|k: int| 0 <= k < n && s[k] == angle;
    lemma_index_of_element(s, w);
    let i = index_in(s, angle);
    assert(i == w);
    let j = (n - i) % n;
    if i == 0 {
        lemma_mod_self_0(n);
        assert(j == 0);
    } else {
        lemma_small_mod((n - i) as nat, n as nat);
        assert(j == n - i);
        lemma_small_mod(i as nat, n as nat);
        assert((n - j) % n == i);
    }
    assert(0 <= j < n);
    assert(s.contains(s[j]));
    lemma_index_of_element(s, j);
}

/// In the 45-degree mode the mirror of any angle up to 360 is its reflection across the
/// horizontal axis, and mirroring an angle below 360 twice gives it back.
pub proof fn law_mirror_in_45_degree_mode(angle: u16)
    requires
        angle <= 360,
    ensures
        mode_mirror(RotationMode::Deg45, angle) == spec_mirror_angle(angle),
        angle < 360 ==> mode_mirror(RotationMode::Deg45, mode_mirror(RotationMode::Deg45, angle)) == angle,
{
    lemma_mirror_45_is_reflection(angle);
    if angle < 360 {
        lemma_mirror_45_is_reflection(spec_mirror_angle(angle));
    }
}

/// The 45-degree mode mirrors by reflection.
proof fn lemma_mirror_45_is_reflection(angle: u16)
    requires
        angle <= 360,
    ensures
        mode_mirror(RotationMode::Deg45, angle) == spec_mirror_angle(angle),
{
    let s = spec_angles(RotationMode::Deg45);
    lemma_angles_increase(RotationMode::Deg45);
    lemma_index_in(s, angle);
    let i = index_in(s, angle);
    if i >= 0 {
        assert(s[i] == 45 * i);
        let j = (8 - i) % 8;
        assert(0 <= j < 8);
        assert(s[j] == 45 * j);
        if i == 0 {
            assert(j == 0);
        } else {
            assert(j == 8 - i);
        }
    }
}

/// A rotation missing from a state is supplied by the rotation at its mirror angle, when that
/// one is there: it shows the mirror's image, at the angle asked for, marked as mirrored.
pub proof fn law_missing_rotation_comes_from_mirror(s: State, angle: u16)
    requires
        angle <= 360,
        !s.rotations@.contains_key(angle),
        s.rotations@.contains_key(mode_mirror(s.rotation_mode, angle)),
        mode_mirror(s.rotation_mode, angle) != angle,
    ensures
        rotation_at(s, angle) == Some(Rotation {
            angle,
            image_data: s.rotations@[mode_mirror(s.rotation_mode, angle)].image_data,
            is_mirrored: true,
        }),
{
}

/// A rotation that is there with an image is shown as it is, never mirrored from another.
pub proof fn law_drawn_rotation_is_shown_as_drawn(s: State, angle: u16)
    requires
        s.rotations@.contains_key(angle),
        s.rotations@[angle].image_data is Some,
    ensures
        rotation_at(s, angle) == Some(s.rotations@[angle]),
{
}

/// Stepping forward and then back through a timeline of `n` frames returns to the frame
/// shown before, and so does stepping back and then forward.
pub proof fn law_frame_steps_undo(current: int, n: int)
    requires
        0 <= current < n,
    ensures
        wrapped_previous(wrapped_next(current, n), n) == current,
        wrapped_next(wrapped_previous(current, n), n) == current,
        0 <= wrapped_next(current, n) < n,
        0 <= wrapped_previous(current, n) < n,
{
    if current + 1 < n {
        lemma_small_mod((current + 1) as nat, n as nat);
    } else {
        lemma_mod_self_0(n);
    }
    if current == 0 {
        lemma_mod_self_0(n);
    } else {
        lemma_small_mod(current as nat, n as nat);
    }
}

/// Moving to the next frame with wrapping and then to the previous one with wrapping shows
/// the frame shown at first again.
pub proof fn law_next_then_previous_frame(s: AppState, t: AppState, u: AppState)
    requires
        0 <= s.current_frame < s.frame_count(),
        s.moved_to_frame(t, wrapped_next(s.current_frame as int, s.frame_count())),
        t.moved_to_frame(u, wrapped_previous(t.current_frame as int, t.frame_count())),
    ensures
        u.current_frame == s.current_frame,
        u.selected_part_id is None,
{
    law_frame_steps_undo(s.current_frame as int, s.frame_count());
    assert(t.active_index() == s.active_index());
    assert(t.frame_count() == s.frame_count());
}

/// After the layers of the current frame are replaced, that frame is still the current one
/// and holds the new layers.
pub proof fn lemma_layers_replaced(s: AppState, t: AppState, layers: Seq<PlacedPart>)
    requires
        s.has_frame(),
        s.layers_replaced(t, layers),
    ensures
        t.active_index() == s.active_index(),
        t.has_frame(),
        t.current_layers() == layers,
        same_except_frame_parts(s.the_project(), t.the_project(), s.active_index(),
            s.current_animation as int, s.current_frame as int),
{
    let c = s.active_index();
    let sp = s.the_project();
    let tp = t.the_project();
    assert(character_names(tp.characters@) =~= character_names(sp.characters@)) by {
        assert forall|i: int| 0 <= i < sp.characters.len() implies
            #[trigger] tp.characters@[i].name == sp.characters@[i].name by {
            if i != c {
                assert(tp.characters@[i] == sp.characters@[i]);
            }
        }
    }
}

/// Moving a layer up and then moving it down again gives the frame back its layers in their
/// former order.
pub proof fn law_layer_up_then_down(s: AppState, t: AppState, u: AppState, i: int)
    requires
        s.has_frame(),
        0 <= i && i + 1 < s.current_layers().len(),
        s.layers_replaced(t, swap_adjacent(s.current_layers(), i)),
        t.layers_replaced(u, swap_adjacent(t.current_layers(), i)),
    ensures
        u.has_frame(),
        u.current_layers() == s.current_layers(),
{
    lemma_layers_replaced(s, t, swap_adjacent(s.current_layers(), i));
    lemma_layers_replaced(t, u, swap_adjacent(t.current_layers(), i));
    assert(swap_adjacent(swap_adjacent(s.current_layers(), i), i) =~= s.current_layers());
}

/// Deleting the layers of an ID leaves none with that ID and keeps every other layer.
pub proof fn law_delete_removes_id(parts: Seq<PlacedPart>, id: u64)
    ensures
        forall|k: int| 0 <= k < without_id(parts, id).len() ==> (#[trigger] without_id(parts, id)[k]).id != id,
        forall|p: PlacedPart| parts.contains(p) && p.id != id ==> #[trigger] without_id(parts, id).contains(p),
        forall|p: PlacedPart| #[trigger] without_id(parts, id).contains(p) ==> parts.contains(p),
    decreases parts.len(),
{
    if parts.len() > 0 {
        let init = parts.drop_last();
        law_delete_removes_id(init, id);
        let rest = without_id(init, id);
        assert forall|p: PlacedPart| parts.contains(p) && p.id != id implies #[trigger] without_id(parts, id).contains(p) by {
            let k = choose|k: int| 0 <= k < parts.len() && parts[k] == p;
            if k < parts.len() - 1 {
                assert(init[k] == p);
                assert(init.contains(p));
                assert(rest.contains(p));
                if parts.last().id != id {
                    let j = choose|j: int| 0 <= j < rest.len() && rest[j] == p;
                    assert(rest.push(parts.last())[j] == p);
                }
            } else {
                assert(rest.push(parts.last())[rest.len() as int] == p);
            }
        }
        assert forall|p: PlacedPart| #[trigger] without_id(parts, id).contains(p) implies parts.contains(p) by {
            let w = without_id(parts, id);
            let j = choose|j: int| 0 <= j < w.len() && w[j] == p;
            if parts.last().id != id && j == rest.len() {
                assert(parts[parts.len() - 1] == p);
            } else {
                assert(rest[j] == p);
                assert(rest.contains(p));
                let k = choose|k: int| 0 <= k < init.len() && init[k] == p;
                assert(parts[k] == p);
            }
        }
    }
}

/// The layers of a duplicated frame get distinct IDs, all taken from `start` on.
pub proof fn law_duplicate_ids_fresh(parts: Seq<PlacedPart>, start: int)
    requires
        0 <= start,
        start + parts.len() <= u64::MAX,
    ensures
        forall|k: int| 0 <= k < parts.len() ==> start <= (#[trigger] renumbered(parts, start)[k]).id < start + parts.len(),
        forall|i: int, j: int| 0 <= i < j < parts.len() ==> renumbered(parts, start)[i].id != renumbered(parts, start)[j].id,
{
}

/// After a project is opened, the recent list starts with it, holds it once, holds at most
/// `MAX_RECENT_PROJECTS` entries, holds nothing new besides it, and stays free of repeats.
pub proof fn law_recent_after_open(paths: Seq<Seq<char>>, path: Seq<char>)
    ensures
        recent_after_open(paths, path).len() >= 1,
        recent_after_open(paths, path)[0] == path,
        recent_after_open(paths, path).len() <= MAX_RECENT_PROJECTS,
        forall|x: Seq<char>| #[trigger] recent_after_open(paths, path).contains(x) ==> x == path || paths.contains(x),
        paths.no_duplicates() ==> recent_after_open(paths, path).no_duplicates(),
{
    lemma_without_path(paths, path);
    let full = seq![path] + without_path(paths, path);
    let r = recent_after_open(paths, path);
    assert(full[0] == path);
    assert forall|x: Seq<char>| #[trigger] r.contains(x) implies x == path || paths.contains(x) by {
        let j = choose|j: int| 0 <= j < r.len() && r[j] == x;
        assert(full[j] == x);
        if j > 0 {
            assert(without_path(paths, path)[j - 1] == x);
            assert(without_path(paths, path).contains(x));
        }
    }
    if paths.no_duplicates() {
        lemma_without_path_distinct(paths, path);
        let w = without_path(paths, path);
        assert(!w.contains(path));
        assert forall|i: int, j: int| 0 <= i < r.len() && 0 <= j < r.len() && i != j implies r[i] != r[j] by {
            assert(r[i] == full[i] && r[j] == full[j]);
            if i == 0 {
                assert(w[j - 1] == full[j]);
                assert(w.contains(full[j]));
            } else if j == 0 {
                assert(w[i - 1] == full[i]);
                assert(w.contains(full[i]));
            } else {
                assert(w[i - 1] == full[i] && w[j - 1] == full[j]);
            }
        }
    }
}

/// A project removed from the recent list is no longer in it.
pub proof fn law_recent_after_remove(paths: Seq<Seq<char>>, path: Seq<char>)
    ensures
        !without_path(paths, path).contains(path),
{
    lemma_without_path(paths, path);
}

/// What is saved of the editor state comes back when the project is opened again: the active
/// character, animation and frame, the view switches, and the tab, whenever the tab is the
/// canvas or the editor of the active character.
pub proof fn law_editor_state_round_trip(s: AppState, zoom_level_bits: u32, reference_opacity_bits: u32,
    before: AppState, after: AppState, path: std::path::PathBuf, saved_json: Option<String>)
    requires
        s.project is Some,
        records(s.the_project().editor_state, s, zoom_level_bits, reference_opacity_bits),
        opened(before, after, s.the_project(), path, saved_json),
        s.active_tab matches ActiveTab::CharacterEditor(n) ==> s.active_character == Some(n),
    ensures
        after.active_character == s.active_character,
        after.current_animation == s.current_animation,
        after.current_frame == s.current_frame,
        after.view.show_grid == s.view.show_grid,
        after.view.show_labels == s.view.show_labels,
        after.view.reference_show_on_top == s.view.reference_show_on_top,
        after.active_tab == s.active_tab,
        s.the_project().editor_state.zoom_level_bits == zoom_level_bits,
        s.the_project().editor_state.reference_opacity_bits == reference_opacity_bits,
{
    reveal_strlit("canvas");
    reveal_strlit("editor");
    assert("canvas"@ != "editor"@) by {
        assert("canvas"@[0] != "editor"@[0]);
    }
}

/// The parts of characters whose animations are unchanged are unchanged.
proof fn lemma_same_animations_same_parts(a: Seq<crate::model::Character>, b: Seq<crate::model::Character>)
    requires
        a.len() == b.len(),
        forall|i: int| 0 <= i < a.len() ==> (#[trigger] a[i]).animations@ == b[i].animations@,
    ensures
        characters_parts(a) == characters_parts(b),
    decreases a.len(),
{
    if a.len() > 0 {
        lemma_same_animations_same_parts(a.drop_last(), b.drop_last());
        assert(a.last().animations@ == b.last().animations@);
    }
}

/// Opening a project without legacy animations leaves every character's animations as they were.
proof fn lemma_no_legacy_keeps_animations(before: crate::project::Project, after: crate::project::Project)
    requires
        loaded_from(before, after),
        before.animations@.len() == 0,
    ensures
        forall|i: int| 0 <= i < before.characters@.len() ==>
            (#[trigger] before.characters@[i]).animations@ == after.characters@[i].animations@,
        characters_parts(before.characters@) == characters_parts(after.characters@),
{
    assert forall|i: int| 0 <= i < before.characters@.len() implies
        (#[trigger] before.characters@[i]).animations@ == after.characters@[i].animations@ by {
        let o = before.characters@[i];
        let n = after.characters@[i];
        assert(legacy_assigned(before.characters@, before.animations@, i).len() == 0);
        assert(n.animations@.take(o.animations@.len() as int) == o.animations@);
        assert(n.animations@ =~= o.animations@);
    }
    lemma_same_animations_same_parts(before.characters@, after.characters@);
}

/// After a project without legacy animations is opened, the next ID handed to a placed part
/// is greater than every ID already placed, so new layers never share an ID with loaded ones.
pub proof fn law_loaded_ids_are_fresh(before: crate::project::Project, after: crate::project::Project)
    requires
        loaded_from(before, after),
        before.animations@.len() == 0,
    ensures
        forall|k: int| 0 <= k < characters_parts(after.characters@).len()
            ==> (#[trigger] characters_parts(after.characters@)[k]).id < after.next_part_id,
{
    lemma_no_legacy_keeps_animations(before, after);
    lemma_max_id(characters_parts(before.characters@));
}

/// Completing an opened project a second time changes nothing, when it had no legacy
/// animations: characters, their animations and canvas sizes, the version and the next ID
/// stay as the first completion left them.
pub proof fn law_loading_again_changes_nothing(a: crate::project::Project, b: crate::project::Project,
    c: crate::project::Project)
    requires
        loaded_from(a, b),
        loaded_from(b, c),
        a.animations@.len() == 0,
    ensures
        c.next_part_id == b.next_part_id,
        c.version@ == b.version@,
        c.name == b.name,
        c.canvas_size == b.canvas_size,
        c.editor_state == b.editor_state,
        c.animations@ == b.animations@,
        c.characters.len() == b.characters.len(),
        forall|i: int| 0 <= i < b.characters.len() ==> {
            &&& (#[trigger] c.characters@[i]).name == b.characters@[i].name
            &&& c.characters@[i].parts == b.characters@[i].parts
            &&& c.characters@[i].canvas_size == b.characters@[i].canvas_size
            &&& c.characters@[i].animations@ == b.characters@[i].animations@
        },
{
    lemma_no_legacy_keeps_animations(a, b);
    lemma_no_legacy_keeps_animations(b, c);
    assert(c.animations@ =~= b.animations@);
    assert forall|i: int| 0 <= i < b.characters.len() implies {
        &&& (#[trigger] c.characters@[i]).name == b.characters@[i].name
        &&& c.characters@[i].parts == b.characters@[i].parts
        &&& c.characters@[i].canvas_size == b.characters@[i].canvas_size
        &&& c.characters@[i].animations@ == b.characters@[i].animations@
    } by {
        let ai = a.characters@[i];
        let bi = b.characters@[i];
        let ci = c.characters@[i];
        assert(i < a.characters.len());
        assert(bi.name == ai.name && bi.parts == ai.parts);
        assert(ci.name == bi.name);
        assert(ci.parts == bi.parts);
        assert(bi.canvas_size == crate::loading::loaded_canvas_size(ai.canvas_size, a.canvas_size));
        assert(ci.canvas_size == crate::loading::loaded_canvas_size(bi.canvas_size, b.canvas_size));
        assert(ci.animations@ == bi.animations@);
    }
}

/// After a project with legacy animations is opened, every character has an animation.
pub proof fn law_loaded_characters_are_animated(before: crate::project::Project, after: crate::project::Project)
    requires
        loaded_from(before, after),
        before.animations@.len() > 0,
    ensures
        forall|i: int| 0 <= i < after.characters.len() ==> (#[trigger] after.characters@[i]).animations.len() >= 1,
{
    assert forall|i: int| 0 <= i < after.characters.len() implies (#[trigger] after.characters@[i]).animations.len() >= 1 by {
        let o = before.characters@[i];
        assert(o == before.characters@[i]);
    }
}

/// The frame rate the timeline sets is always between 1 and 60 frames per second, and a rate
/// in that range is kept as it is.
pub proof fn law_frame_rate_in_range(fps: u32)
    ensures
        MIN_FPS <= clamped_fps(fps) <= MAX_FPS,
        MIN_FPS <= fps <= MAX_FPS ==> clamped_fps(fps) == fps,
{
}

/// Renaming a character in the editor only to a name no character has keeps the character
/// names free of repeats.
pub proof fn law_editor_rename_keeps_names_distinct(names: Seq<Seq<char>>, c: int, new_name: Seq<char>)
    requires
        names.no_duplicates(),
        0 <= c < names.len(),
        !names.contains(new_name),
    ensures
        names.update(c, new_name).no_duplicates(),
{
    let u = names.update(c, new_name);
    assert forall|i: int, j: int| 0 <= i < u.len() && 0 <= j < u.len() && i != j implies u[i] != u[j] by {
        if i == c {
            assert(names[j] == u[j]);
            assert(names.contains(names[j]));
        } else if j == c {
            assert(names[i] == u[i]);
            assert(names.contains(names[i]));
        }
    }
}

/// Every layer placed in `p` has an ID below `bound`.
pub open spec fn ids_below(p: crate::project::Project, bound: int) -> bool {
    forall|c: int, a: int, f: int, k: int|
        0 <= c < p.characters.len() && 0 <= a < p.characters@[c].animations.len()
        && 0 <= f < p.characters@[c].animations@[a].frames.len()
        && 0 <= k < p.characters@[c].animations@[a].frames@[f].placed_parts.len()
        ==> #[trigger] p.characters@[c].animations@[a].frames@[f].placed_parts@[k].id < bound
}

/// Placing a part keeps every ID below the next one to hand out, when that held before: the
/// new layer's ID differs from every ID already placed anywhere in the project.
pub proof fn law_placing_keeps_ids_fresh(before: crate::project::Project, after: crate::project::Project,
    at: Option<(int, int, int)>, character_name: Seq<char>, part: Seq<char>, state: Seq<char>, position_bits: (u32, u32))
    requires
        ids_below(before, before.next_part_id as int),
        layer_placed(before, after, at, character_name, part, state, position_bits),
    ensures
        ids_below(after, after.next_part_id as int),
{
    reveal(layer_placed);
    match at {
        None => {
            assert(after.characters == before.characters);
        },
        Some((tc, ta, tf)) => {
            let mid = crate::project::Project { next_part_id: after.next_part_id, ..before };
            let old_parts = parts_at(before, tc, ta, tf);
            let new_parts = parts_at(after, tc, ta, tf);
            assert forall|c: int, a: int, f: int, k: int|
                0 <= c < after.characters.len() && 0 <= a < after.characters@[c].animations.len()
                && 0 <= f < after.characters@[c].animations@[a].frames.len()
                && 0 <= k < after.characters@[c].animations@[a].frames@[f].placed_parts.len()
                implies #[trigger] after.characters@[c].animations@[a].frames@[f].placed_parts@[k].id < after.next_part_id by {
                if c != tc {
                    assert(after.characters@[c] == mid.characters@[c]);
                    assert(before.characters@[c].animations@[a].frames@[f].placed_parts@[k].id < before.next_part_id);
                } else if a != ta {
                    assert(after.characters@[c].animations@[a] == mid.characters@[c].animations@[a]);
                    assert(before.characters@[c].animations@[a].frames@[f].placed_parts@[k].id < before.next_part_id);
                } else if f != tf {
                    assert(after.characters@[c].animations@[a].frames@[f] == mid.characters@[c].animations@[a].frames@[f]);
                    assert(before.characters@[c].animations@[a].frames@[f].placed_parts@[k].id < before.next_part_id);
                } else if k < old_parts.len() {
                    assert(new_parts[k] == new_parts.take(old_parts.len() as int)[k]);
                    assert(before.characters@[c].animations@[a].frames@[f].placed_parts@[k].id < before.next_part_id);
                } else {
                    assert(k == old_parts.len());
                    assert(new_parts[k] == new_parts.last());
                }
            }
        },
    }
}

/// Duplicating the last frame keeps every ID below the next one to hand out, when that held
/// before: the copies' IDs differ from every ID already placed anywhere in the project.
pub proof fn law_duplicating_keeps_ids_fresh(before: crate::project::Project, after: crate::project::Project, tc: int, ta: int)
    requires
        ids_below(before, before.next_part_id as int),
        0 <= tc < before.characters.len(),
        0 <= ta < before.characters@[tc].animations.len(),
        before.characters@[tc].animations@[ta].frames.len() > 0,
        last_frame_duplicated(before, after, tc, ta),
    ensures
        ids_below(after, after.next_part_id as int),
{
    let mid = crate::project::Project { next_part_id: after.next_part_id, ..before };
    let oa = before.characters@[tc].animations@[ta];
    let na = after.characters@[tc].animations@[ta];
    let n = oa.frames.len() as int;
    assert forall|c: int, a: int, f: int, k: int|
        0 <= c < after.characters.len() && 0 <= a < after.characters@[c].animations.len()
        && 0 <= f < after.characters@[c].animations@[a].frames.len()
        && 0 <= k < after.characters@[c].animations@[a].frames@[f].placed_parts.len()
        implies #[trigger] after.characters@[c].animations@[a].frames@[f].placed_parts@[k].id < after.next_part_id by {
        if c != tc {
            assert(after.characters@[c] == mid.characters@[c]);
            assert(before.characters@[c].animations@[a].frames@[f].placed_parts@[k].id < before.next_part_id);
        } else if a != ta {
            assert(after.characters@[c].animations@[a] == mid.characters@[c].animations@[a]);
            assert(before.characters@[c].animations@[a].frames@[f].placed_parts@[k].id < before.next_part_id);
        } else if f < n {
            assert(na.frames@[f] == na.frames@.take(n)[f]);
            assert(before.characters@[c].animations@[a].frames@[f].placed_parts@[k].id < before.next_part_id);
        } else {
            assert(f == n);
            let src = oa.frames@.last();
            assert(na.frames@[f] == na.frames@.last());
            assert(is_renumbered_copy(src, na.frames@.last(), before.next_part_id as int));
            assert(na.frames@.last().placed_parts@[k] == renumbered(src.placed_parts@, before.next_part_id as int)[k]);
        }
    }
}

/// In a spritesheet of `n` frames every frame gets a cell of its own, inside the sheet's
/// columns and rows.
pub proof fn law_sheet_cells_are_distinct(n: int, cols: int, rows: int, i: int, j: int)
    requires
        n > 0,
        sheet_grid(n, cols, rows),
        0 <= i < n,
        0 <= j < n,
        i != j,
    ensures
        0 <= i % cols < cols,
        0 <= i / cols < rows,
        (i % cols, i / cols) != (j % cols, j / cols),
{
    lemma_cell_in_grid(n, cols, rows, i);
    lemma_cell_in_grid(n, cols, rows, j);
    lemma_fundamental_div_mod(i, cols);
    lemma_fundamental_div_mod(j, cols);
}

/// Every animation of `p` has at least one frame.
pub open spec fn animations_have_frames(p: crate::project::Project) -> bool {
    forall|c: int, a: int| 0 <= c < p.characters.len() && 0 <= a < p.characters@[c].animations.len()
        ==> (#[trigger] p.characters@[c].animations@[a]).frames.len() >= 1
}

/// Deleting a frame never leaves an animation without frames: the only frame of an animation
/// is refused.
pub proof fn law_frame_deletion_keeps_a_frame(before: AppState, after: AppState, char_name: Seq<char>,
    anim_index: usize, frame_index: usize, status: Option<String>)
    requires
        before.project is Some,
        animations_have_frames(before.the_project()),
        frame_deleted(before, after, char_name, anim_index, frame_index, status),
    ensures
        after.project is Some,
        animations_have_frames(after.the_project()),
{
    reveal(frame_deleted);
    let op = before.the_project();
    let np = after.the_project();
    let tc = crate::actions::char_index(op, char_name);
    assert forall|c: int, a: int| 0 <= c < np.characters.len() && 0 <= a < np.characters@[c].animations.len()
        implies (#[trigger] np.characters@[c].animations@[a]).frames.len() >= 1 by {
        if after != before {
            if c != tc {
                assert(np.characters@[c] == op.characters@[c]);
                assert(op.characters@[c].animations@[a].frames.len() >= 1);
            } else if a != anim_index {
                assert(np.characters@[c].animations@[a] == op.characters@[c].animations@[a]);
                assert(op.characters@[c].animations@[a].frames.len() >= 1);
            }
        } else {
            assert(op.characters@[c].animations@[a].frames.len() >= 1);
        }
    }
}

/// Adding a character under a name no character has, as cloning does, keeps the character
/// names free of repeats.
pub proof fn law_adding_a_new_name_keeps_names_distinct(before: Seq<crate::model::Character>,
    after: Seq<crate::model::Character>, name: Seq<char>)
    requires
        character_names(before).no_duplicates(),
        !character_names(before).contains(name),
        after.len() == before.len() + 1,
        after.take(before.len() as int) == before,
        after[before.len() as int].name@ == name,
    ensures
        character_names(after).no_duplicates(),
{
    let nb = character_names(before);
    let na = character_names(after);
    assert(na =~= nb.push(name)) by {
        assert forall|i: int| 0 <= i < before.len() implies na[i] == nb[i] by {
            assert(after[i] == after.take(before.len() as int)[i]);
        }
    }
    assert forall|i: int, j: int| 0 <= i < na.len() && 0 <= j < na.len() && i != j implies na[i] != na[j] by {
        if i == before.len() {
            assert(nb.contains(nb[j]));
        } else if j == before.len() {
            assert(nb.contains(nb[i]));
        }
    }
}

/// A spritesheet's metadata never goes to the sheet's own file: the path a sheet of the
/// current animation is written to, and the path of a sheet of a whole-character export, both
/// end in ".png" (in some case), and their metadata paths differ from them.
pub proof fn law_metadata_never_overwrites_sheet(output: Seq<char>, dir: Seq<char>, character: Seq<char>,
    safe_animation: Seq<char>)
    ensures
        ({
            let p = if ends_with_png(output) { output } else { output + ".png"@ };
            ends_with_png(p) && png_to_json(p) != p
        }),
        ({
            let p = dir + "/"@ + character + "_"@ + safe_animation + ".png"@;
            ends_with_png(p) && png_to_json(p) != p
        }),
{
    reveal_strlit(".png");
    let p = if ends_with_png(output) { output } else { output + ".png"@ };
    assert(ends_with_png(p));
    lemma_png_to_json_ends_json(p);
    let q = dir + "/"@ + character + "_"@ + safe_animation + ".png"@;
    assert(ends_with_png(q));
    lemma_png_to_json_ends_json(q);
}

/// `w` is what reading back the file of `p` gives: a project file keeps the version, name,
/// characters, reference thumbnails and editor state; the legacy canvas size comes back at its
/// default and there are no legacy animations.
pub open spec fn read_back_as(p: crate::project::Project, w: crate::project::Project) -> bool {
    &&& w.version == p.version
    &&& w.name == p.name
    &&& w.characters == p.characters
    &&& w.reference_thumbnails == p.reference_thumbnails
    &&& w.editor_state == p.editor_state
    &&& w.canvas_size == (64u32, 64u32)
    &&& w.animations@.len() == 0
}

/// Opening the file a project was saved to gives the project back: its name, version,
/// characters (names, parts, canvas sizes and animations), reference thumbnails and editor
/// state; it is not counted as migrated, and new IDs start above every placed one.
pub proof fn law_reopening_a_saved_project(p: crate::project::Project, w: crate::project::Project,
    q: crate::project::Project)
    requires
        read_back_as(p, w),
        loaded_from(w, q),
    ensures
        q.name == p.name,
        q.version@ == p.version@,
        q.characters.len() == p.characters.len(),
        forall|i: int| 0 <= i < p.characters.len() ==> {
            &&& (#[trigger] q.characters@[i]).name == p.characters@[i].name
            &&& q.characters@[i].parts == p.characters@[i].parts
            &&& q.characters@[i].canvas_size == p.characters@[i].canvas_size
            &&& q.characters@[i].animations@ == p.characters@[i].animations@
        },
        q.reference_thumbnails == p.reference_thumbnails,
        q.editor_state == p.editor_state,
        !q.legacy_migrated,
        q.animations@.len() == 0,
        forall|k: int| 0 <= k < characters_parts(q.characters@).len()
            ==> (#[trigger] characters_parts(q.characters@)[k]).id < q.next_part_id,
{
    lemma_no_legacy_keeps_animations(w, q);
    law_loaded_ids_are_fresh(w, q);
    assert forall|i: int| 0 <= i < p.characters.len() implies {
        &&& (#[trigger] q.characters@[i]).name == p.characters@[i].name
        &&& q.characters@[i].parts == p.characters@[i].parts
        &&& q.characters@[i].canvas_size == p.characters@[i].canvas_size
        &&& q.characters@[i].animations@ == p.characters@[i].animations@
    } by {
        assert(w.characters@[i] == p.characters@[i]);
        assert(q.characters@[i].canvas_size == crate::loading::loaded_canvas_size(w.characters@[i].canvas_size, w.canvas_size));
    }
}

/// Saving a project and opening its file again restores the session: the project comes
/// back (see `law_reopening_a_saved_project`), and so do the active character, animation and
/// frame, the view switches and the tab (when the tab is the canvas or the editor of the
/// active character), the zoom and reference opacity handed to the interface; nothing is
/// selected, and the text read counts as the text last saved.
pub proof fn law_save_then_open_restores_session(s: AppState, zoom_level_bits: u32, reference_opacity_bits: u32,
    saved: crate::project::Project, w: crate::project::Project, q: crate::project::Project,
    before: AppState, after: AppState, path: std::path::PathBuf, saved_json: Option<String>)
    requires
        records(saved.editor_state, s, zoom_level_bits, reference_opacity_bits),
        read_back_as(saved, w),
        loaded_from(w, q),
        opened(before, after, q, path, saved_json),
        s.active_tab matches ActiveTab::CharacterEditor(n) ==> s.active_character == Some(n),
    ensures
        after.project == Some(q),
        q.name == saved.name,
        q.characters.len() == saved.characters.len(),
        forall|i: int| 0 <= i < saved.characters.len() ==> {
            &&& (#[trigger] q.characters@[i]).name == saved.characters@[i].name
            &&& q.characters@[i].parts == saved.characters@[i].parts
            &&& q.characters@[i].canvas_size == saved.characters@[i].canvas_size
            &&& q.characters@[i].animations@ == saved.characters@[i].animations@
        },
        after.active_character == s.active_character,
        after.current_animation == s.current_animation,
        after.current_frame == s.current_frame,
        after.view.show_grid == s.view.show_grid,
        after.view.show_labels == s.view.show_labels,
        after.view.reference_show_on_top == s.view.reference_show_on_top,
        after.active_tab == s.active_tab,
        q.editor_state.zoom_level_bits == zoom_level_bits,
        q.editor_state.reference_opacity_bits == reference_opacity_bits,
        after.selected_part_id is None,
        after.last_saved_json == saved_json,
        after.project_path == Some(path),
{
    law_reopening_a_saved_project(saved, w, q);
    reveal_strlit("canvas");
    reveal_strlit("editor");
    assert("canvas"@ != "editor"@) by {
        assert("canvas"@[0] != "editor"@[0]);
    }
}

/// Deleting frame `frame_index` of an animation with more than one frame removes exactly
/// that frame: the animation has one frame fewer, the frames before it keep their places,
/// every later frame moves one place forward, the other animations of the character stay as
/// they were, and the answer names the frame counted from one.
pub proof fn law_delete_frame_removes_that_frame(before: AppState, after: AppState, char_name: Seq<char>,
    anim_index: usize, frame_index: usize, status: Option<String>, c: int)
    requires
        frame_deleted(before, after, char_name, anim_index, frame_index, status),
        before.project is Some,
        0 <= c < before.the_project().characters.len(),
        before.the_project().characters@[c].name@ == char_name,
        forall|j: int| 0 <= j < c ==> (#[trigger] before.the_project().characters@[j]).name@ != char_name,
        anim_index < before.the_project().characters@[c].animations.len(),
        frame_index < before.the_project().characters@[c].animations@[anim_index as int].frames.len(),
        before.the_project().characters@[c].animations@[anim_index as int].frames.len() > 1,
    ensures
        after.project is Some,
        after.the_project().characters.len() == before.the_project().characters.len(),
        after.the_project().characters@[c].animations.len() == before.the_project().characters@[c].animations.len(),
        ({
            let old_frames = before.the_project().characters@[c].animations@[anim_index as int].frames@;
            let new_frames = after.the_project().characters@[c].animations@[anim_index as int].frames@;
            &&& new_frames.len() + 1 == old_frames.len()
            &&& forall|k: int| 0 <= k < frame_index ==> #[trigger] new_frames[k] == old_frames[k]
            &&& forall|k: int| frame_index <= k < new_frames.len() ==> #[trigger] new_frames[k] == old_frames[k + 1]
        }),
        forall|j: int| 0 <= j < before.the_project().characters@[c].animations.len() && j != anim_index
            ==> #[trigger] after.the_project().characters@[c].animations@[j]
                == before.the_project().characters@[c].animations@[j],
        forall|j: int| 0 <= j < before.the_project().characters.len() && j != c
            ==> #[trigger] after.the_project().characters@[j] == before.the_project().characters@[j],
        after.the_project().characters@[c].name == before.the_project().characters@[c].name,
        after.the_project().characters@[c].parts == before.the_project().characters@[c].parts,
        after.the_project().characters@[c].animations@[anim_index as int].name
            == before.the_project().characters@[c].animations@[anim_index as int].name,
        ({
            let left = before.the_project().characters@[c].animations@[anim_index as int].frames.len() - 1;
            after.current_frame == if before.current_frame < left { before.current_frame } else { (left - 1) as usize }
        }),
        after.selected_part_id is None,
        after.active_character == before.active_character,
        after.current_animation == before.current_animation,
        status matches Some(m) && m@ == "Deleted frame "@ + decimal(frame_index as nat + 1),
{
    reveal(frame_deleted);
    let chars = before.the_project().characters@;
    lemma_first_index_of(character_names(chars), char_name);
    let i = first_index_of(character_names(chars), char_name);
    assert(character_names(chars)[c] == char_name);
    if i < 0 {
        assert(character_names(chars).contains(char_name));
    }
    if i < c {
        assert(character_names(chars)[i] == chars[i].name@);
    }
    if i > c {
        assert(character_names(chars)[c] == char_name);
    }
    assert(i == c);
}

/// The only frame of an animation is never deleted: asking for it changes nothing and is
/// answered "Cannot delete the only frame".
pub proof fn law_only_frame_is_kept(before: AppState, after: AppState, char_name: Seq<char>,
    anim_index: usize, frame_index: usize, status: Option<String>, c: int)
    requires
        frame_deleted(before, after, char_name, anim_index, frame_index, status),
        before.project is Some,
        0 <= c < before.the_project().characters.len(),
        before.the_project().characters@[c].name@ == char_name,
        forall|j: int| 0 <= j < c ==> (#[trigger] before.the_project().characters@[j]).name@ != char_name,
        anim_index < before.the_project().characters@[c].animations.len(),
        before.the_project().characters@[c].animations@[anim_index as int].frames.len() == 1,
    ensures
        after == before,
        status matches Some(m) && m@ == "Cannot delete the only frame"@,
{
    reveal(frame_deleted);
    let chars = before.the_project().characters@;
    lemma_first_index_at(character_names(chars), char_name, c);
    assert(character_names(chars)[c] == char_name);
}

/// Asking to delete a frame that is not there (no project, no such character or animation, or
/// a frame index past the end of an animation with several frames) changes nothing and is not
/// answered.
pub proof fn law_missing_frame_is_not_deleted(before: AppState, after: AppState, char_name: Seq<char>,
    anim_index: usize, frame_index: usize, status: Option<String>)
    requires
        frame_deleted(before, after, char_name, anim_index, frame_index, status),
        before.project is None
            || (forall|j: int| 0 <= j < before.the_project().characters.len()
                ==> (#[trigger] before.the_project().characters@[j]).name@ != char_name)
            || (forall|j: int| 0 <= j < before.the_project().characters.len()
                && (#[trigger] before.the_project().characters@[j]).name@ == char_name
                ==> {
                    ||| anim_index >= before.the_project().characters@[j].animations.len()
                    ||| (frame_index >= before.the_project().characters@[j].animations@[anim_index as int].frames.len()
                        && before.the_project().characters@[j].animations@[anim_index as int].frames.len() > 1)
                }),
    ensures
        after == before,
        status is None,
{
    reveal(frame_deleted);
    if before.project is Some {
        let chars = before.the_project().characters@;
        lemma_first_index_of(character_names(chars), char_name);
        let i = first_index_of(character_names(chars), char_name);
        if i >= 0 {
            assert(character_names(chars)[i] == chars[i].name@);
        }
    }
}

/// The image a placed layer shows comes from the layer's own part: given the first
/// character, the first of its parts and the first of that part's states named as the layer
/// says, the image is that state's rotation at the layer's angle, or nothing when there is
/// no rotation there.
pub proof fn law_layer_image_is_its_own_part(p: crate::project::Project, layer: PlacedPart, ci: int, pi: int, si: int)
    requires
        0 <= ci < p.characters.len(),
        p.characters@[ci].name@ == layer.character_name@,
        forall|j: int| 0 <= j < ci ==> (#[trigger] p.characters@[j]).name@ != layer.character_name@,
        0 <= pi < p.characters@[ci].parts.len(),
        p.characters@[ci].parts@[pi].name@ == layer.part_name@,
        forall|j: int| 0 <= j < pi ==> (#[trigger] p.characters@[ci].parts@[j]).name@ != layer.part_name@,
        0 <= si < p.characters@[ci].parts@[pi].states.len(),
        p.characters@[ci].parts@[pi].states@[si].name@ == layer.state_name@,
        forall|j: int| 0 <= j < si ==> (#[trigger] p.characters@[ci].parts@[pi].states@[j]).name@ != layer.state_name@,
    ensures
        ({
            let st = p.characters@[ci].parts@[pi].states@[si];
            layer_image(p, layer) == if st.rotations@.contains_key(layer.rotation) {
                st.rotations@[layer.rotation].image_data
            } else {
                None
            }
        }),
{
    let chars = p.characters@;
    lemma_first_index_at(character_names(chars), layer.character_name@, ci);
    let parts = chars[ci].parts@;
    lemma_first_index_at(part_names(parts), layer.part_name@, pi);
    let states = parts[pi].states@;
    lemma_first_index_at(state_names(states), layer.state_name@, si);
}

/// A layer whose character has no part of the layer's part name shows no image, whatever the
/// character's other parts hold.
pub proof fn law_layer_without_its_part_shows_nothing(p: crate::project::Project, layer: PlacedPart, ci: int)
    requires
        0 <= ci < p.characters.len(),
        p.characters@[ci].name@ == layer.character_name@,
        forall|j: int| 0 <= j < ci ==> (#[trigger] p.characters@[j]).name@ != layer.character_name@,
        forall|j: int| 0 <= j < p.characters@[ci].parts.len()
            ==> (#[trigger] p.characters@[ci].parts@[j]).name@ != layer.part_name@,
    ensures
        layer_image(p, layer) is None,
{
    let chars = p.characters@;
    lemma_first_index_at(character_names(chars), layer.character_name@, ci);
    let names = part_names(chars[ci].parts@);
    lemma_first_index_of(names, layer.part_name@);
    if names.contains(layer.part_name@) {
        let k = choose|k: int| 0 <= k < names.len() && names[k] == layer.part_name@;
        assert(chars[ci].parts@[k].name@ == layer.part_name@);
    }
}

/// The image a layer shows, when there is one, is the image of a rotation at the layer's
/// angle in a state named as the layer says, of a part named as the layer says, of a
/// character named as the layer says.
pub proof fn law_layer_image_names_match(p: crate::project::Project, layer: PlacedPart)
    ensures
        layer_image(p, layer) is Some ==> exists|ci: int, pi: int, si: int|
            0 <= ci < p.characters.len()
            && #[trigger] p.characters@[ci].name@ == layer.character_name@
            && 0 <= pi < p.characters@[ci].parts.len()
            && #[trigger] p.characters@[ci].parts@[pi].name@ == layer.part_name@
            && 0 <= si < p.characters@[ci].parts@[pi].states.len()
            && #[trigger] p.characters@[ci].parts@[pi].states@[si].name@ == layer.state_name@
            && p.characters@[ci].parts@[pi].states@[si].rotations@.contains_key(layer.rotation)
            && p.characters@[ci].parts@[pi].states@[si].rotations@[layer.rotation].image_data == layer_image(p, layer),
{
    if layer_image(p, layer) is Some {
        let chars = p.characters@;
        lemma_first_index_of(character_names(chars), layer.character_name@);
        let ci = first_index_of(character_names(chars), layer.character_name@);
        let parts = chars[ci].parts@;
        lemma_first_index_of(part_names(parts), layer.part_name@);
        let pi = first_index_of(part_names(parts), layer.part_name@);
        let states = parts[pi].states@;
        lemma_first_index_of(state_names(states), layer.state_name@);
        let si = first_index_of(state_names(states), layer.state_name@);
        assert(character_names(chars)[ci] == chars[ci].name@);
        assert(part_names(parts)[pi] == parts[pi].name@);
        assert(state_names(states)[si] == states[si].name@);
    }
}

/// `first_index_of` finds `name` at `i` when `i` holds it and no earlier index does.
proof fn lemma_first_index_at(names: Seq<Seq<char>>, name: Seq<char>, i: int)
    requires
        0 <= i < names.len(),
        names[i] == name,
        forall|j: int| 0 <= j < i ==> names[j] != name,
    ensures
        first_index_of(names, name) == i,
{
    lemma_first_index_of(names, name);
    assert(names.contains(name));
}

/// A pixel of a decoded image is opaque exactly when it lies inside the image and the alpha
/// byte of that pixel, in row `y` and column `x` of the rows-first RGBA8 buffer, is not zero:
/// rows are `4 * w` bytes long, and the pixel's four bytes start `4 * x` bytes into its row.
pub proof fn law_opaque_reads_the_pixel_at_its_row_and_column(w: u32, h: u32, pixels: Seq<u8>, x: u32, y: u32)
    ensures
        opaque_at(w, h, pixels, x, y) == (x < w && y < h && pixels[4 * w * y + 4 * x + 3] != 0),
{
    assert(4 * (y * w + x) + 3 == 4 * w * y + 4 * x + 3) by (nonlinear_arith);
}

/// Whether the pixel under (`x`, `y`) of a base64 image is opaque is decided by that pixel of
/// the decoded image alone: false when the text or the image does not decode or the pixel
/// lies outside, else whether its alpha byte, in row `y` and column `x`, is not zero.
pub proof fn law_pixel_opaque_reads_the_decoded_pixel(text: Seq<char>, x: u32, y: u32)
    ensures
        pixel_opaque(text, x, y) == match decoded_pixels(text) {
            Some((w, h, px)) => x < w && y < h && px[4 * w * y + 4 * x + 3] != 0,
            None => false,
        },
{
    match decoded_pixels(text) {
        Some((w, h, px)) => { law_opaque_reads_the_pixel_at_its_row_and_column(w, h, px, x, y); },
        None => {},
    }
}

/// After a project is opened, a character at the default canvas size of 64 by 64 takes the
/// project's legacy canvas size whenever that differs from 64 by 64 in width or in height;
/// any other character keeps its own size.
pub proof fn law_loading_moves_the_legacy_canvas_size(before: crate::project::Project, after: crate::project::Project, i: int)
    requires
        loaded_from(before, after),
        0 <= i < before.characters.len(),
    ensures
        ({
            let own = before.characters@[i].canvas_size;
            let legacy = before.canvas_size;
            after.characters@[i].canvas_size == if own.0 == 64 && own.1 == 64 && (legacy.0 != 64 || legacy.1 != 64) {
                legacy
            } else {
                own
            }
        }),
{
    assert(after.characters@[i].canvas_size == crate::loading::loaded_canvas_size(before.characters@[i].canvas_size, before.canvas_size));
}

/// A click picks the topmost layer under the pointer whose pixel there is opaque (a layer
/// without an image always counts): given the first such layer in the topmost-first list,
/// its ID is chosen.
pub proof fn law_click_picks_the_topmost_solid_layer(hits: Seq<CanvasHit>, k: int)
    requires
        0 <= k < hits.len(),
        hits[k].image_data matches Some(d) ==> pixel_opaque(d@, hits[k].pixel.0, hits[k].pixel.1),
        forall|j: int| 0 <= j < k ==> ((#[trigger] hits[j]).image_data matches Some(d)
            && !pixel_opaque(d@, hits[j].pixel.0, hits[j].pixel.1)),
    ensures
        click_choice(hits) == Some(hits[k].id),
{
    lemma_first_solid(hits);
    let f = first_solid(hits);
    if f < 0 || f > k {
        assert(!hits_layer(hits[k]));
    }
    if f < k && f >= 0 {
        assert(!hits_layer(hits[f]));
    }
}

/// When the pointer is on no layer's opaque pixel, a click picks the topmost layer under the
/// pointer, and nothing when there is none.
pub proof fn law_click_falls_back_to_the_topmost_layer(hits: Seq<CanvasHit>)
    requires
        forall|j: int| 0 <= j < hits.len() ==> ((#[trigger] hits[j]).image_data matches Some(d)
            && !pixel_opaque(d@, hits[j].pixel.0, hits[j].pixel.1)),
    ensures
        click_choice(hits) == if hits.len() > 0 { Some(hits[0].id) } else { None },
{
    lemma_first_solid(hits);
    let f = first_solid(hits);
    if f >= 0 {
        assert(hits_layer(hits[f]));
    }
}

/// After a project is opened, the next ID handed to a placed part is one past the largest ID
/// placed in its characters' animations: above every one of them, and right after one of
/// them (or 1 when none is placed).
pub proof fn law_loaded_next_id_is_one_past_the_largest(before: crate::project::Project, after: crate::project::Project)
    requires
        loaded_from(before, after),
    ensures
        forall|k: int| 0 <= k < characters_parts(before.characters@).len()
            ==> (#[trigger] characters_parts(before.characters@)[k]).id < after.next_part_id,
        after.next_part_id == 1 || exists|k: int| 0 <= k < characters_parts(before.characters@).len()
            && (#[trigger] characters_parts(before.characters@)[k]).id + 1 == after.next_part_id,
{
    lemma_max_id(characters_parts(before.characters@));
}

/// Duplicating the last frame appends a copy of it whose layers, in order, are those of the
/// last frame with the IDs `next_part_id`, `next_part_id + 1`, ...; the next ID to hand out
/// moves past them.
pub proof fn law_duplicate_numbers_layers_consecutively(op: crate::project::Project, np: crate::project::Project, c: int, a: int)
    requires
        last_frame_duplicated(op, np, c, a),
        0 <= c < op.characters.len(),
        0 <= a < op.characters@[c].animations.len(),
        op.characters@[c].animations@[a].frames.len() > 0,
    ensures
        ({
            let source = op.characters@[c].animations@[a].frames@.last();
            let copy = np.characters@[c].animations@[a].frames@.last();
            &&& np.characters@[c].animations@[a].frames.len() == op.characters@[c].animations@[a].frames.len() + 1
            &&& copy.placed_parts.len() == source.placed_parts.len()
            &&& forall|k: int| 0 <= k < source.placed_parts.len() ==>
                (#[trigger] copy.placed_parts@[k]).id == op.next_part_id + k
                && (PlacedPart { id: source.placed_parts@[k].id, ..copy.placed_parts@[k] }) == source.placed_parts@[k]
            &&& copy.duration_ms == source.duration_ms
            &&& np.next_part_id == op.next_part_id + source.placed_parts.len()
        }),
{
}

/// Stepping forward with wrapping from frame `current` of `total` shows the next frame, and
/// the first after the last.
pub proof fn law_next_frame_wraps_to_the_first(current: int, total: int)
    requires
        0 <= current < total,
    ensures
        wrapped_next(current, total) == if current == total - 1 { 0 } else { current + 1 },
        0 <= wrapped_next(current, total) < total,
{
    if current == total - 1 {
        lemma_mod_self_0(total);
    } else {
        lemma_small_mod((current + 1) as nat, total as nat);
    }
}

/// A spritesheet of up to eight frames is one row of them; a larger one is the smallest
/// square number of columns that holds them, with as many rows as needed and no empty row.
pub proof fn law_sheet_layout_shape(n: int, cols: int, rows: int)
    requires
        n > 0,
        sheet_grid(n, cols, rows),
    ensures
        n <= 8 ==> cols == n && rows == 1,
        n > 8 ==> cols * cols >= n && (cols - 1) * (cols - 1) < n,
        cols > 0,
        cols * rows >= n,
        cols * (rows - 1) < n,
{
    lemma_cell_in_grid(n, cols, rows, n - 1);
    lemma_fundamental_div_mod(n - 1, cols);
    if n <= 8 {
        assert(rows == 1);
    } else {
        assert(rows == (n - 1) / cols + 1) by {
            vstd::arithmetic::div_mod::lemma_div_plus_one(n - 1, cols);
            assert(cols + (n - 1) == n + cols - 1);
        }
        assert(cols * rows == cols * ((n - 1) / cols) + cols) by (nonlinear_arith)
            requires rows == (n - 1) / cols + 1;
        assert(cols * (rows - 1) == cols * ((n - 1) / cols)) by (nonlinear_arith)
            requires rows == (n - 1) / cols + 1;
    }
}

/// A legacy animation whose target is character `i` is among those handed to it.
proof fn lemma_assigned_holds_target(characters: Seq<crate::model::Character>, legacy: Seq<crate::model::Animation>, i: int, j: int)
    requires
        0 <= j < legacy.len(),
        legacy_target(characters, legacy[j]) == i,
    ensures
        legacy_assigned(characters, legacy, i).contains(j),
    decreases legacy.len(),
{
    let rest = legacy_assigned(characters, legacy.drop_last(), i);
    if j == legacy.len() - 1 {
        assert(legacy_assigned(characters, legacy, i) == rest.push(j));
        assert(rest.push(j)[rest.len() as int] == j);
    } else {
        assert(legacy.drop_last()[j] == legacy[j]);
        lemma_assigned_holds_target(characters, legacy.drop_last(), i, j);
        let k = choose|k: int| 0 <= k < rest.len() && rest[k] == j;
        if legacy_target(characters, legacy.last()) == i {
            assert(rest.push(legacy.len() - 1)[k] == j);
        }
    }
}

/// When a project in the first file format is opened, each of its project-level animations
/// that has placed parts goes to the first character named like the owner of its first placed
/// part: that character's animations keep their places, and after them comes the legacy
/// animation unchanged but for its name, which gets " (multi-char)" appended exactly when its
/// parts belong to several characters.
pub proof fn law_legacy_animation_goes_to_its_owner(before: crate::project::Project, after: crate::project::Project,
    j: int, i: int)
    requires
        loaded_from(before, after),
        0 <= j < before.animations.len(),
        anim_parts(before.animations@[j]).len() > 0,
        0 <= i < before.characters.len(),
        before.characters@[i].name@ == anim_parts(before.animations@[j])[0].character_name@,
        forall|k: int| 0 <= k < i ==> (#[trigger] before.characters@[k]).name@
            != anim_parts(before.animations@[j])[0].character_name@,
    ensures
        ({
            let legacy = before.animations@[j];
            let old_anims = before.characters@[i].animations@;
            let new_anims = after.characters@[i].animations@;
            let several = exists|k: int| 0 <= k < anim_parts(legacy).len()
                && (#[trigger] anim_parts(legacy)[k]).character_name@ != anim_parts(legacy)[0].character_name@;
            &&& new_anims.take(old_anims.len() as int) == old_anims
            &&& exists|m: int| old_anims.len() <= m < new_anims.len()
                && #[trigger] new_anims[m] == (crate::model::Animation { name: new_anims[m].name, ..legacy })
                && new_anims[m].name@ == if several { legacy.name@ + " (multi-char)"@ } else { legacy.name@ }
        }),
{
    let chars = before.characters@;
    let legacy = before.animations@;
    lemma_first_index_at(character_names(chars), anim_parts(legacy[j])[0].character_name@, i);
    assert(legacy_target(chars, legacy[j]) == i);
    lemma_assigned_holds_target(chars, legacy, i, j);
    let assigned = legacy_assigned(chars, legacy, i);
    let k = choose|k: int| 0 <= k < assigned.len() && assigned[k] == j;
    let old_anims = chars[i].animations@;
    let new_anims = after.characters@[i].animations@;
    assert(i < before.characters.len());
    let m = old_anims.len() + k;
    assert(crate::loading::is_migrated_from(new_anims[m], legacy[assigned[k]]));
}

} // verus!
