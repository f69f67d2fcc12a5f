use vstd::prelude::*;
use crate::model::{
    Animation, Character, Frame, PlacedPart, first_index_of, lemma_first_index_of, is_blank_frame,
    untitled_animation_name,
};
use crate::project::{Project, character_names, current_version, concat_str};

verus! {

/// All placed parts of `frames`, frame by frame, bottom layer first.
pub open spec fn frames_parts(frames: Seq<Frame>) -> Seq<PlacedPart>
    decreases frames.len(),
{
    if frames.len() == 0 {
        Seq::empty()
    } else {
        frames_parts(frames.drop_last()) + frames.last().placed_parts@
    }
}

/// All placed parts of `animations`, animation by animation.
pub open spec fn animations_parts(animations: Seq<Animation>) -> Seq<PlacedPart>
    decreases animations.len(),
{
    if animations.len() == 0 {
        Seq::empty()
    } else {
        animations_parts(animations.drop_last()) + frames_parts(animations.last().frames@)
    }
}

/// All placed parts in the animations of `characters`, character by character.
pub open spec fn characters_parts(characters: Seq<Character>) -> Seq<PlacedPart>
    decreases characters.len(),
{
    if characters.len() == 0 {
        Seq::empty()
    } else {
        characters_parts(characters.drop_last()) + animations_parts(characters.last().animations@)
    }
}

/// The greatest ID among `parts`, or 0 when there are none.
pub open spec fn max_id(parts: Seq<PlacedPart>) -> u64
    decreases parts.len(),
{
    if parts.len() == 0 {
        0
    } else {
        let m = max_id(parts.drop_last());
        if parts.last().id > m { parts.last().id } else { m }
    }
}

/// `max_id` bounds every ID of `parts`, and is 0 or one of them.
pub proof fn lemma_max_id(parts: Seq<PlacedPart>)
    ensures
        forall|k: int| 0 <= k < parts.len() ==> (#[trigger] parts[k]).id <= max_id(parts),
        max_id(parts) == 0 || exists|k: int| 0 <= k < parts.len() && (#[trigger] parts[k]).id == max_id(parts),
    decreases parts.len(),
{
    if parts.len() > 0 {
        lemma_max_id(parts.drop_last());
        assert forall|k: int| 0 <= k < parts.len() - 1 implies parts[k] == parts.drop_last()[k] by {}
        if max_id(parts) != parts.last().id && max_id(parts) != 0 {
            let k = choose|k: int| 0 <= k < parts.len() - 1 && (#[trigger] parts.drop_last()[k]).id == max_id(parts.drop_last());
            assert(parts[k].id == max_id(parts));
        }
    }
}

/// The maximum over a concatenation is the greater of the two maxima.
proof fn lemma_max_id_concat(a: Seq<PlacedPart>, b: Seq<PlacedPart>)
    ensures
        max_id(a + b) == if max_id(a) > max_id(b) { max_id(a) } else { max_id(b) },
    decreases b.len(),
{
    if b.len() == 0 {
        assert(a + b =~= a);
    } else {
        lemma_max_id_concat(a, b.drop_last());
        assert((a + b).drop_last() =~= a + b.drop_last());
    }
}

/// The greatest placed-part ID in `frames`.
pub fn max_id_in_frames(frames: &Vec<Frame>) -> (r: u64)
    ensures
        r == max_id(frames_parts(frames@)),
{
    let mut cur: u64 = 0;
    let mut f: usize = 0;
    while f < frames.len()
        invariant
            f <= frames.len(),
            cur == max_id(frames_parts(frames@.take(f as int))),
        decreases frames.len() - f,
    {
        let parts = &frames[f].placed_parts;
        let ghost before = frames_parts(frames@.take(f as int));
        let mut p: usize = 0;
        while p < parts.len()
            invariant
                p <= parts.len(),
                cur == max_id(before + parts@.take(p as int)),
            decreases parts.len() - p,
        {
            let id = parts[p].id;
            assert((before + parts@.take(p as int + 1)).drop_last() =~= before + parts@.take(p as int));
            if id > cur {
                cur = id;
            }
            p = p + 1;
        }
        assert(parts@.take(p as int) =~= parts@);
        assert(frames@.take(f as int + 1).drop_last() =~= frames@.take(f as int));
        f = f + 1;
    }
    assert(frames@.take(f as int) =~= frames@);
    cur
}

/// The greatest placed-part ID in `animations`.
pub fn max_id_in_animations(animations: &Vec<Animation>) -> (r: u64)
    ensures
        r == max_id(animations_parts(animations@)),
{
    let mut cur: u64 = 0;
    let mut a: usize = 0;
    while a < animations.len()
        invariant
            a <= animations.len(),
            cur == max_id(animations_parts(animations@.take(a as int))),
        decreases animations.len() - a,
    {
        let m = max_id_in_frames(&animations[a].frames);
        proof {
            assert(animations@.take(a as int + 1).drop_last() =~= animations@.take(a as int));
            lemma_max_id_concat(animations_parts(animations@.take(a as int)), frames_parts(animations@[a as int].frames@));
        }
        if m > cur {
            cur = m;
        }
        a = a + 1;
    }
    assert(animations@.take(a as int) =~= animations@);
    cur
}

/// The greatest placed-part ID in the animations of `characters`.
pub fn max_id_in_characters(characters: &Vec<Character>) -> (r: u64)
    ensures
        r == max_id(characters_parts(characters@)),
{
    let mut cur: u64 = 0;
    let mut c: usize = 0;
    while c < characters.len()
        invariant
            c <= characters.len(),
            cur == max_id(characters_parts(characters@.take(c as int))),
        decreases characters.len() - c,
    {
        let m = max_id_in_animations(&characters[c].animations);
        proof {
            assert(characters@.take(c as int + 1).drop_last() =~= characters@.take(c as int));
            lemma_max_id_concat(characters_parts(characters@.take(c as int)), animations_parts(characters@[c as int].animations@));
        }
        if m > cur {
            cur = m;
        }
        c = c + 1;
    }
    assert(characters@.take(c as int) =~= characters@);
    cur
}


/// The placed parts of `a`, frame by frame.
pub open spec fn anim_parts(a: Animation) -> Seq<PlacedPart> {
    frames_parts(a.frames@)
}

/// Whether the parts of `a` belong to more than one character.
pub open spec fn uses_several_characters(a: Animation) -> bool {
    exists|k: int| 0 <= k < anim_parts(a).len() && (#[trigger] anim_parts(a)[k]).character_name@ != anim_parts(a)[0].character_name@
}

/// The character a legacy animation is handed to: the one its first placed part belongs to.
pub open spec fn legacy_owner_name(a: Animation) -> Seq<char> {
    anim_parts(a)[0].character_name@
}

/// Index in `characters` of the character receiving legacy animation `a`; -1 when `a` has no
/// placed parts or no character has the owner's name, and `a` is dropped.
pub open spec fn legacy_target(characters: Seq<Character>, a: Animation) -> int {
    if anim_parts(a).len() == 0 {
        -1
    } else {
        first_index_of(character_names(characters), legacy_owner_name(a))
    }
}

/// Positions in `legacy`, in order, of the legacy animations handed to character `i`.
pub open spec fn legacy_assigned(characters: Seq<Character>, legacy: Seq<Animation>, i: int) -> Seq<int>
    decreases legacy.len(),
{
    if legacy.len() == 0 {
        Seq::empty()
    } else {
        let rest = legacy_assigned(characters, legacy.drop_last(), i);
        if legacy_target(characters, legacy.last()) == i {
            rest.push(legacy.len() - 1)
        } else {
            rest
        }
    }
}

/// The name a legacy animation carries once handed to a character.
pub open spec fn migrated_name(a: Animation) -> Seq<char> {
    if uses_several_characters(a) {
        a.name@ + " (multi-char)"@
    } else {
        a.name@
    }
}

/// `b` is legacy animation `a` as the migration stores it: the same but for its name.
pub open spec fn is_migrated_from(b: Animation, a: Animation) -> bool {
    &&& b == (Animation { name: b.name, ..a })
    &&& b.name@ == migrated_name(a)
}

/// `new_anims` is `old_anims` followed by the legacy animations at positions `assigned`.
pub open spec fn received(old_anims: Seq<Animation>, new_anims: Seq<Animation>, legacy: Seq<Animation>, assigned: Seq<int>) -> bool {
    &&& new_anims.len() == old_anims.len() + assigned.len()
    &&& new_anims.take(old_anims.len() as int) == old_anims
    &&& forall|k: int| 0 <= k < assigned.len() ==> is_migrated_from(#[trigger] new_anims[old_anims.len() + k], legacy[assigned[k]])
}

/// `a` is the untitled animation of a new character.
pub open spec fn is_untitled_animation(a: Animation) -> bool {
    &&& a.name@ == untitled_animation_name()
    &&& a.frames.len() == 1
    &&& is_blank_frame(a.frames@[0])
    &&& a.z_overrides@ == Map::<String, i32>::empty()
    &&& a.fps == 12
}

/// The animations of a character after loading: when there were legacy animations, those
/// handed to it are appended, and a character left without any gets an untitled one.
pub open spec fn loaded_animations(old_anims: Seq<Animation>, new_anims: Seq<Animation>, legacy: Seq<Animation>, assigned: Seq<int>) -> bool {
    if legacy.len() > 0 && old_anims.len() + assigned.len() == 0 {
        new_anims.len() == 1 && is_untitled_animation(new_anims[0])
    } else {
        received(old_anims, new_anims, legacy, assigned)
    }
}

/// The canvas size of a character after loading: a character still at the default 64x64
/// takes the legacy project-wide size when that is not the default.
pub open spec fn loaded_canvas_size(own: (u32, u32), project_canvas: (u32, u32)) -> (u32, u32) {
    if own == (64u32, 64u32) && project_canvas != (64u32, 64u32) {
        project_canvas
    } else {
        own
    }
}

/// Adding the parts of one more frame extends the flattened sequence.
proof fn lemma_frames_parts_step(frames: Seq<Frame>, f: int)
    requires
        0 <= f < frames.len(),
    ensures
        frames_parts(frames.take(f + 1)) == frames_parts(frames.take(f)) + frames[f].placed_parts@,
{
    assert(frames.take(f + 1).drop_last() =~= frames.take(f));
}

/// The owner of a legacy animation and whether it uses several characters; `None` when it
/// has no placed parts.
pub fn legacy_owner(a: &Animation) -> (r: Option<(String, bool)>)
    ensures
        match r {
            None => anim_parts(*a).len() == 0,
            Some((name, several)) => {
                &&& anim_parts(*a).len() > 0
                &&& name@ == legacy_owner_name(*a)
                &&& several == uses_several_characters(*a)
            },
        },
{
    let mut first: Option<String> = None;
    let mut several = false;
    let mut f: usize = 0;
    while f < a.frames.len()
        invariant
            f <= a.frames.len(),
            (first is None) == (frames_parts(a.frames@.take(f as int)).len() == 0),
            first matches Some(n) ==> n@ == frames_parts(a.frames@.take(f as int))[0].character_name@,
            several == exists|k: int| 0 <= k < frames_parts(a.frames@.take(f as int)).len()
                && (#[trigger] frames_parts(a.frames@.take(f as int))[k]).character_name@
                    != frames_parts(a.frames@.take(f as int))[0].character_name@,
        decreases a.frames.len() - f,
    {
        let parts = &a.frames[f].placed_parts;
        let ghost before = frames_parts(a.frames@.take(f as int));
        let mut p: usize = 0;
        while p < parts.len()
            invariant
                p <= parts.len(),
                before == frames_parts(a.frames@.take(f as int)),
                (first is None) == ((before + parts@.take(p as int)).len() == 0),
                first matches Some(n) ==> n@ == (before + parts@.take(p as int))[0].character_name@,
                several == exists|k: int| 0 <= k < (before + parts@.take(p as int)).len()
                    && (#[trigger] (before + parts@.take(p as int))[k]).character_name@
                        != (before + parts@.take(p as int))[0].character_name@,
            decreases parts.len() - p,
        {
            let ghost old_seq = before + parts@.take(p as int);
            let ghost new_seq = before + parts@.take(p as int + 1);
            assert(new_seq =~= old_seq.push(parts@[p as int]));
            match &first {
                None => {
                    first = Some(parts[p].character_name.clone());
                },
                Some(n) => {
                    if parts[p].character_name != *n {
                        several = true;
                    }
                },
            }
            assert forall|k: int| 0 <= k < old_seq.len() implies #[trigger] new_seq[k] == old_seq[k] by {}
            proof {
                if several {
                    if exists|k: int| 0 <= k < old_seq.len() && (#[trigger] old_seq[k]).character_name@ != old_seq[0].character_name@ {
                        let k = choose|k: int| 0 <= k < old_seq.len() && (#[trigger] old_seq[k]).character_name@ != old_seq[0].character_name@;
                        assert(new_seq[k].character_name@ != new_seq[0].character_name@);
                    } else {
                        assert(new_seq[old_seq.len() as int].character_name@ != new_seq[0].character_name@);
                    }
                } else {
                    assert forall|k: int| 0 <= k < new_seq.len() implies (#[trigger] new_seq[k]).character_name@ == new_seq[0].character_name@ by {
                        if k < old_seq.len() {
                            assert(old_seq[k].character_name@ == old_seq[0].character_name@);
                        }
                    }
                }
            }
            p = p + 1;
        }
        assert(parts@.take(p as int) =~= parts@);
        proof { lemma_frames_parts_step(a.frames@, f as int); }
        f = f + 1;
    }
    assert(a.frames@.take(f as int) =~= a.frames@);
    match first {
        None => None,
        Some(n) => Some((n, several)),
    }
}


/// Handing one more legacy animation to a character extends what it received.
proof fn lemma_received_push(old_anims: Seq<Animation>, cur: Seq<Animation>, legacy: Seq<Animation>, assigned: Seq<int>, j: int, b: Animation)
    requires
        received(old_anims, cur, legacy, assigned),
        0 <= j < legacy.len(),
        is_migrated_from(b, legacy[j]),
    ensures
        received(old_anims, cur.push(b), legacy, assigned.push(j)),
{
    let n = cur.push(b);
    let a2 = assigned.push(j);
    assert(n.take(old_anims.len() as int) =~= cur.take(old_anims.len() as int));
    assert forall|k: int| 0 <= k < a2.len() implies is_migrated_from(#[trigger] n[old_anims.len() + k], legacy[a2[k]]) by {
        if k < assigned.len() {
            assert(n[old_anims.len() + k] == cur[old_anims.len() + k]);
            assert(a2[k] == assigned[k]);
        }
    }
}

/// One more legacy animation either joins the list of its target or leaves all lists as they were.
proof fn lemma_assigned_step(characters: Seq<Character>, legacy: Seq<Animation>, j: int, i: int)
    requires
        0 <= j < legacy.len(),
    ensures
        legacy_assigned(characters, legacy.take(j + 1), i) == if legacy_target(characters, legacy[j]) == i {
            legacy_assigned(characters, legacy.take(j), i).push(j)
        } else {
            legacy_assigned(characters, legacy.take(j), i)
        },
{
    assert(legacy.take(j + 1).drop_last() =~= legacy.take(j));
}

/// `after` is the project read as `before` once completed for use (see `Project::prepare_loaded`).
pub open spec fn loaded_from(before: Project, after: Project) -> bool {
    &&& after.next_part_id == max_id(characters_parts(before.characters@)) + 1
    &&& after.animations@.len() == 0
    &&& after.version@ == if before.animations@.len() > 0 { current_version() } else { before.version@ }
    &&& after.characters.len() == before.characters.len()
    &&& forall|i: int| 0 <= i < before.characters.len() ==> {
            let o = #[trigger] before.characters@[i];
            let n = after.characters@[i];
            &&& n.name == o.name
            &&& n.parts == o.parts
            &&& n.canvas_size == loaded_canvas_size(o.canvas_size, before.canvas_size)
            &&& loaded_animations(o.animations@, n.animations@, before.animations@,
                    legacy_assigned(before.characters@, before.animations@, i))
        }
    &&& after.name == before.name
    &&& after.canvas_size == before.canvas_size
    &&& after.reference_layer == before.reference_layer
    &&& after.reference_thumbnails == before.reference_thumbnails
    &&& after.editor_state == before.editor_state
    &&& after.legacy_migrated == (before.animations@.len() > 0)
}

impl Project {
    /// Completes a project read from a file.
    ///
    /// The next placed-part ID becomes one more than the greatest ID placed in the characters'
    /// animations. Legacy project-level animations are handed to characters: each goes to the
    /// first character named like the owner of its first placed part, renamed with
    /// " (multi-char)" when its parts belong to several characters, and is dropped when it has
    /// no parts or no such character exists; afterwards every character without animations gets
    /// an untitled one and the version becomes "2.0". Characters still at the default canvas size
    /// take the legacy project-wide size when that is not the default.
    pub fn prepare_loaded(&mut self)
        requires
            max_id(characters_parts(old(self).characters@)) < u64::MAX,
        ensures
            loaded_from(*old(self), *final(self)),
    {
        let had_legacy = self.animations.len() > 0;
        let max = max_id_in_characters(&self.characters);
        self.next_part_id = max + 1;
        let ghost chars0 = self.characters@;
        let ghost legacy0 = self.animations@;
        if self.animations.len() > 0 {
            let mut legacy: Vec<Animation> = Vec::new();
            std::mem::swap(&mut legacy, &mut self.animations);
            assert(legacy0.skip(0) =~= legacy0);
            assert forall|i: int| 0 <= i < chars0.len() implies #[trigger] chars0[i].animations@.take(
                chars0[i].animations@.len() as int) == chars0[i].animations@ by {
                assert(chars0[i].animations@.take(chars0[i].animations@.len() as int) =~= chars0[i].animations@);
            }
            let mut j: usize = 0;
            while legacy.len() > 0
                invariant
                    j <= legacy0.len(),
                    legacy0.len() <= usize::MAX,
                    legacy@ == legacy0.skip(j as int),
                    legacy0.len() > 0,
                    self.animations@.len() == 0,
                    self.next_part_id == max_id(characters_parts(chars0)) + 1,
                    self.version == old(self).version,
                    self.name == old(self).name,
                    self.canvas_size == old(self).canvas_size,
                    self.reference_layer == old(self).reference_layer,
                    self.reference_thumbnails == old(self).reference_thumbnails,
                    self.editor_state == old(self).editor_state,
                    self.characters.len() == chars0.len(),
                    forall|i: int| 0 <= i < chars0.len() ==> {
                        let o = #[trigger] chars0[i];
                        let n = self.characters@[i];
                        &&& n.name == o.name
                        &&& n.parts == o.parts
                        &&& n.canvas_size == o.canvas_size
                        &&& received(o.animations@, n.animations@, legacy0, legacy_assigned(chars0, legacy0.take(j as int), i))
                    },
                decreases legacy.len(),
            {
                let a = legacy.remove(0);
                assert(a == legacy0[j as int]);
                let ghost before = self.characters@;
                assert(character_names(before) =~= character_names(chars0)) by {
                    assert forall|i: int| 0 <= i < chars0.len() implies #[trigger] character_names(before)[i] == character_names(chars0)[i] by {
                        assert(before[i].name == chars0[i].name);
                    }
                }
                proof {
                    lemma_first_index_of(character_names(chars0), legacy_owner_name(a));
                }
                match legacy_owner(&a) {
                    None => {
                        assert forall|i: int| 0 <= i < chars0.len() implies legacy_assigned(chars0, legacy0.take(j as int + 1), i)
                            == legacy_assigned(chars0, legacy0.take(j as int), i) by {
                            lemma_assigned_step(chars0, legacy0, j as int, i);
                        }
                    },
                    Some((owner, several)) => {
                        let b = if several {
                            let Animation { name, frames, z_overrides, fps } = a;
                            Animation { name: concat_str(name, " (multi-char)"), frames, z_overrides, fps }
                        } else {
                            a
                        };
                        assert(is_migrated_from(b, legacy0[j as int]));
                        match self.get_character_mut(owner.as_str()) {
                            Some(c) => {
                                let ghost t = first_index_of(character_names(chars0), legacy_owner_name(legacy0[j as int]));
                                c.add_animation(b);
                                proof {
                                    assert forall|i: int| 0 <= i < chars0.len() implies {
                                        let o = #[trigger] chars0[i];
                                        let n = self.characters@[i];
                                        &&& n.name == o.name
                                        &&& n.parts == o.parts
                                        &&& n.canvas_size == o.canvas_size
                                        &&& received(o.animations@, n.animations@, legacy0, legacy_assigned(chars0, legacy0.take(j as int + 1), i))
                                    } by {
                                        lemma_assigned_step(chars0, legacy0, j as int, i);
                                        if i == t {
                                            lemma_received_push(chars0[i].animations@, before[i].animations@, legacy0,
                                                legacy_assigned(chars0, legacy0.take(j as int), i), j as int, b);
                                            assert(self.characters@[i].animations@ =~= before[i].animations@.push(b));
                                        }
                                    }
                                }
                            },
                            None => {
                                assert forall|i: int| 0 <= i < chars0.len() implies legacy_assigned(chars0, legacy0.take(j as int + 1), i)
                                    == legacy_assigned(chars0, legacy0.take(j as int), i) by {
                                    lemma_assigned_step(chars0, legacy0, j as int, i);
                                }
                            },
                        }
                    },
                }
                assert(legacy@ =~= legacy0.skip(j as int + 1));
                j = j + 1;
            }
            assert(legacy0.take(j as int) =~= legacy0);
            let mut i: usize = 0;
            while i < self.characters.len()
                invariant
                    i <= self.characters.len(),
                    legacy0.len() > 0,
                    self.animations@.len() == 0,
                    self.next_part_id == max_id(characters_parts(chars0)) + 1,
                    self.version == old(self).version,
                    self.name == old(self).name,
                    self.canvas_size == old(self).canvas_size,
                    self.reference_layer == old(self).reference_layer,
                    self.reference_thumbnails == old(self).reference_thumbnails,
                    self.editor_state == old(self).editor_state,
                    self.characters.len() == chars0.len(),
                    forall|k: int| 0 <= k < chars0.len() ==> {
                        let o = #[trigger] chars0[k];
                        let n = self.characters@[k];
                        &&& n.name == o.name
                        &&& n.parts == o.parts
                        &&& n.canvas_size == o.canvas_size
                        &&& if k < i {
                            loaded_animations(o.animations@, n.animations@, legacy0, legacy_assigned(chars0, legacy0, k))
                        } else {
                            received(o.animations@, n.animations@, legacy0, legacy_assigned(chars0, legacy0, k))
                        }
                    },
                decreases self.characters.len() - i,
            {
                if self.characters[i].animations.len() == 0 {
                    let ghost before = self.characters@;
                    let c = &mut self.characters[i];
                    c.add_animation(Animation::new("Untitled Animation"));
                    proof {
                        reveal_strlit("Untitled Animation");
                        assert(self.characters@ == before.update(i as int, self.characters@[i as int]));
                    }
                }
                i = i + 1;
            }
            self.version = "2.0".to_owned();
            proof { reveal_strlit("2.0"); }
        } else {
            proof {
                assert forall|i: int| 0 <= i < chars0.len() implies #[trigger] self.characters@[i].animations@.take(
                    chars0[i].animations@.len() as int) == chars0[i].animations@ by {
                    assert(self.characters@[i].animations@.take(chars0[i].animations@.len() as int) =~= chars0[i].animations@);
                }
            }
        }
        let project_canvas = self.canvas_size;
        let mut i: usize = 0;
        let ghost mid = self.characters@;
        while i < self.characters.len()
            invariant
                i <= self.characters.len(),
                self.characters.len() == mid.len(),
                project_canvas == self.canvas_size,
                self.animations@.len() == 0,
                self.next_part_id == max_id(characters_parts(chars0)) + 1,
                self.version@ == if legacy0.len() > 0 { current_version() } else { old(self).version@ },
                self.name == old(self).name,
                self.canvas_size == old(self).canvas_size,
                self.reference_layer == old(self).reference_layer,
                self.reference_thumbnails == old(self).reference_thumbnails,
                self.editor_state == old(self).editor_state,
                forall|k: int| 0 <= k < mid.len() ==> {
                    let m = #[trigger] mid[k];
                    let n = self.characters@[k];
                    &&& n.name == m.name
                    &&& n.parts == m.parts
                    &&& n.animations == m.animations
                    &&& n.canvas_size == if k < i { loaded_canvas_size(m.canvas_size, project_canvas) } else { m.canvas_size }
                },
            decreases self.characters.len() - i,
        {
            let own = self.characters[i].canvas_size;
            if own.0 == 64 && own.1 == 64 && !(project_canvas.0 == 64 && project_canvas.1 == 64) {
                let c = &mut self.characters[i];
                c.canvas_size = project_canvas;
            }
            i = i + 1;
        }
        self.legacy_migrated = had_legacy;
    }
}

} // verus!
