use vstd::prelude::*;
use crate::model::{Animation, Frame, PlacedPart, is_blank_frame, lemma_first_index_of};
use crate::project::{Project, character_names};
use crate::session::AppState;
use crate::edit::same_except_animation;

verus! {

/// Lowest frame rate the timeline accepts.
pub const MIN_FPS: u32 = 1;

/// Highest frame rate the timeline accepts.
pub const MAX_FPS: u32 = 60;

/// `fps` brought into the range the timeline accepts.
pub open spec fn clamped_fps(fps: u32) -> u32 {
    if fps < MIN_FPS { MIN_FPS } else if fps > MAX_FPS { MAX_FPS } else { fps }
}

/// Frame shown after `current` when stepping forward through `total` frames, wrapping round.
pub open spec fn wrapped_next(current: int, total: int) -> int {
    (current + 1) % total
}

/// Frame shown after `current` when stepping back through `total` frames, wrapping round.
pub open spec fn wrapped_previous(current: int, total: int) -> int {
    if current == 0 { total - 1 } else { current - 1 }
}

/// `parts` with the IDs `start`, `start + 1`, ... in order.
pub open spec fn renumbered(parts: Seq<PlacedPart>, start: int) -> Seq<PlacedPart> {
    Seq::new(parts.len(), |k: int| PlacedPart { id: (start + k) as u64, ..parts[k] })
}

/// `copy` is `source` with its layers renumbered from `start`.
pub open spec fn is_renumbered_copy(source: Frame, copy: Frame, start: int) -> bool {
    &&& copy.duration_ms == source.duration_ms
    &&& copy.placed_parts@ == renumbered(source.placed_parts@, start)
    &&& copy.z_overrides@ == source.z_overrides@
    &&& copy.reference == source.reference
}

/// A copy of `frame` whose layers get the IDs `start`, `start + 1`, ...
fn renumbered_copy(frame: &Frame, start: u64) -> (r: Frame)
    requires
        start + frame.placed_parts.len() <= u64::MAX,
    ensures
        is_renumbered_copy(*frame, r, start as int),
{
    let mut copy = frame.clone();
    let mut parts: Vec<PlacedPart> = Vec::new();
    let mut k: usize = 0;
    while k < frame.placed_parts.len()
        invariant
            k <= frame.placed_parts.len(),
            start + frame.placed_parts.len() <= u64::MAX,
            parts@ == renumbered(frame.placed_parts@, start as int).take(k as int),
        decreases frame.placed_parts.len() - k,
    {
        let mut q = frame.placed_parts[k].clone();
        q.id = start + k as u64;
        parts.push(q);
        k = k + 1;
        assert(parts@ =~= renumbered(frame.placed_parts@, start as int).take(k as int));
    }
    assert(renumbered(frame.placed_parts@, start as int).take(k as int) =~= renumbered(frame.placed_parts@, start as int));
    copy.placed_parts = parts;
    copy
}

/// `np` is `op` with a copy of the last frame of animation `a` of character `c` appended,
/// whose layers got the IDs from `op.next_part_id` on, which moved past them.
pub open spec fn last_frame_duplicated(op: Project, np: Project, c: int, a: int) -> bool {
    let oa = op.characters@[c].animations@[a];
    let na = np.characters@[c].animations@[a];
    &&& np.next_part_id == op.next_part_id + oa.frames@.last().placed_parts.len()
    &&& same_except_animation(Project { next_part_id: np.next_part_id, ..op }, np, c, a)
    &&& na == (Animation { frames: na.frames, ..oa })
    &&& na.frames@.len() == oa.frames@.len() + 1
    &&& na.frames@.take(oa.frames@.len() as int) == oa.frames@
    &&& is_renumbered_copy(oa.frames@.last(), na.frames@.last(), op.next_part_id as int)
}

impl AppState {
    /// Number of frames the timeline shows: those of the current animation, or 1 without one.
    pub open spec fn frame_count(self) -> int {
        if self.has_animation() { self.the_animation().frames.len() as int } else { 1 }
    }

    /// `after` is this state with only the current frame changed, to `frame`, and the
    /// selection cleared.
    pub open spec fn moved_to_frame(self, after: AppState, frame: int) -> bool {
        after == (AppState { current_frame: frame as usize, selected_part_id: None, ..self })
    }

    /// (active character, current animation) when the current animation exists.
    pub fn current_animation_indices(&self) -> (r: Option<(usize, usize)>)
        ensures
            match r {
                Some((c, a)) => self.has_animation() && c as int == self.active_index()
                    && a == self.current_animation && c < self.the_project().characters.len(),
                None => !self.has_animation(),
            },
    {
        proof {
            if self.project is Some && self.active_character is Some {
                lemma_first_index_of(character_names(self.the_project().characters@), self.active_character.unwrap()@);
            }
        }
        match self.active_character_index() {
            Some(c) => match &self.project {
                Some(p) => {
                    if self.current_animation < p.characters[c].animations.len() {
                        Some((c, self.current_animation))
                    } else {
                        None
                    }
                },
                None => None,
            },
            None => None,
        }
    }

    /// Starts or pauses playback; starting clears the selection.
    pub fn toggle_play(&mut self)
        ensures
            final(self).is_playing == !old(self).is_playing,
            final(self).selected_part_id == if final(self).is_playing { None } else { old(self).selected_part_id },
            *final(self) == (AppState { is_playing: final(self).is_playing,
                selected_part_id: final(self).selected_part_id, ..*old(self) }),
    {
        self.is_playing = !self.is_playing;
        if self.is_playing {
            self.selected_part_id = None;
        }
    }

    /// Stops playback and rewinds to the first frame.
    pub fn stop_playback(&mut self)
        ensures
            *final(self) == (AppState { is_playing: false, current_frame: 0, ..*old(self) }),
    {
        self.is_playing = false;
        self.current_frame = 0;
    }

    /// Steps to the previous frame, from the first to the last; clears the selection.
    /// Nothing happens when the timeline shows no frame.
    pub fn previous_frame_wrapping(&mut self)
        ensures
            old(self).frame_count() > 0 ==> old(self).moved_to_frame(*final(self),
                wrapped_previous(old(self).current_frame as int, old(self).frame_count())),
            old(self).frame_count() == 0 ==> *final(self) == *old(self),
    {
        let total = self.total_frames();
        if total > 0 {
            self.current_frame = if self.current_frame == 0 { total - 1 } else { self.current_frame - 1 };
            self.selected_part_id = None;
        }
    }

    /// Steps to the next frame, from the last to the first; clears the selection.
    /// Nothing happens when the timeline shows no frame.
    pub fn next_frame_wrapping(&mut self)
        requires
            old(self).current_frame < usize::MAX,
        ensures
            old(self).frame_count() > 0 ==> old(self).moved_to_frame(*final(self),
                wrapped_next(old(self).current_frame as int, old(self).frame_count())),
            old(self).frame_count() == 0 ==> *final(self) == *old(self),
    {
        let total = self.total_frames();
        if total > 0 {
            self.current_frame = (self.current_frame + 1) % total;
            self.selected_part_id = None;
        }
    }

    /// Advances playback by one frame, from the last to the first; the selection stays.
    pub fn advance_playback(&mut self)
        requires
            old(self).current_frame < usize::MAX,
        ensures
            old(self).frame_count() > 0 ==> *final(self) == (AppState {
                current_frame: wrapped_next(old(self).current_frame as int, old(self).frame_count()) as usize,
                ..*old(self) }),
            old(self).frame_count() == 0 ==> *final(self) == *old(self),
    {
        let total = self.total_frames();
        if total > 0 {
            self.current_frame = (self.current_frame + 1) % total;
        }
    }

    /// Steps back one frame, stopping at the first; clears the selection when it moves.
    pub fn step_back(&mut self)
        ensures
            old(self).current_frame > 0 ==> old(self).moved_to_frame(*final(self), old(self).current_frame - 1),
            old(self).current_frame == 0 ==> *final(self) == *old(self),
    {
        if self.current_frame > 0 {
            self.current_frame = self.current_frame - 1;
            self.selected_part_id = None;
        }
    }

    /// Steps forward one frame, stopping at the last; clears the selection when it moves.
    pub fn step_forward(&mut self)
        requires
            old(self).frame_count() >= 1,
        ensures
            old(self).current_frame < old(self).frame_count() - 1
                ==> old(self).moved_to_frame(*final(self), old(self).current_frame + 1),
            old(self).current_frame >= old(self).frame_count() - 1 ==> *final(self) == *old(self),
    {
        let total = self.total_frames();
        if self.current_frame < total - 1 {
            self.current_frame = self.current_frame + 1;
            self.selected_part_id = None;
        }
    }

    /// Shows frame `frame` and clears the selection.
    pub fn select_frame(&mut self, frame: usize)
        ensures
            old(self).moved_to_frame(*final(self), frame as int),
    {
        self.current_frame = frame;
        self.selected_part_id = None;
    }

    /// Sets the frame rate of the current animation, brought into 1..=60.
    pub fn set_current_fps(&mut self, fps: u32)
        ensures
            !old(self).has_animation() ==> *final(self) == *old(self),
            old(self).has_animation() ==> {
                let c = old(self).active_index();
                let a = old(self).current_animation as int;
                let op = old(self).the_project();
                let np = final(self).the_project();
                &&& final(self).project is Some
                &&& same_except_animation(op, np, c, a)
                &&& np.characters@[c].animations@[a] == (Animation { fps: clamped_fps(fps), ..op.characters@[c].animations@[a] })
            },
            *final(self) == (AppState { project: final(self).project, ..*old(self) }),
    {
        let (c, a) = match self.current_animation_indices() {
            Some(x) => x,
            None => { return; },
        };
        let v = if fps < MIN_FPS { MIN_FPS } else if fps > MAX_FPS { MAX_FPS } else { fps };
        let mut p = self.take_project();
        let anim = p.animation_at_mut(c, a);
        anim.fps = v;
        self.project = Some(p);
    }

    /// Appends an empty frame of 100 ms to the current animation.
    pub fn add_blank_frame(&mut self)
        ensures
            !old(self).has_animation() ==> *final(self) == *old(self),
            old(self).has_animation() ==> {
                let c = old(self).active_index();
                let a = old(self).current_animation as int;
                let op = old(self).the_project();
                let np = final(self).the_project();
                let oa = op.characters@[c].animations@[a];
                let na = np.characters@[c].animations@[a];
                &&& final(self).project is Some
                &&& same_except_animation(op, np, c, a)
                &&& na == (Animation { frames: na.frames, ..oa })
                &&& na.frames@.len() == oa.frames@.len() + 1
                &&& na.frames@.take(oa.frames@.len() as int) == oa.frames@
                &&& is_blank_frame(na.frames@.last())
            },
            *final(self) == (AppState { project: final(self).project, ..*old(self) }),
    {
        let (c, a) = match self.current_animation_indices() {
            Some(x) => x,
            None => { return; },
        };
        let mut p = self.take_project();
        let anim = p.animation_at_mut(c, a);
        anim.add_frame();
        self.project = Some(p);
    }

    /// Appends to the current animation a copy of its last frame whose layers get fresh IDs,
    /// taken in order.
    pub fn duplicate_last_frame(&mut self)
        requires
            old(self).has_animation() && old(self).the_animation().frames.len() > 0
                ==> old(self).the_project().next_part_id + old(self).the_animation().frames@.last().placed_parts.len() <= u64::MAX,
        ensures
            !(old(self).has_animation() && old(self).the_animation().frames.len() > 0) ==> *final(self) == *old(self),
            old(self).has_animation() && old(self).the_animation().frames.len() > 0 ==> {
                &&& final(self).project is Some
                &&& last_frame_duplicated(old(self).the_project(), final(self).the_project(),
                        old(self).active_index(), old(self).current_animation as int)
            },
            *final(self) == (AppState { project: final(self).project, ..*old(self) }),
    {
        let (c, a) = match self.current_animation_indices() {
            Some(x) => x,
            None => { return; },
        };
        let mut p = self.take_project();
        let n = p.characters[c].animations[a].frames.len();
        if n == 0 {
            self.project = Some(p);
            return;
        }
        let start = p.next_part_id;
        let copy = renumbered_copy(&p.characters[c].animations[a].frames[n - 1], start);
        p.next_part_id = start + copy.placed_parts.len() as u64;
        let anim = p.animation_at_mut(c, a);
        let ghost before = anim.frames@;
        anim.frames.push(copy);
        assert(anim.frames@.take(before.len() as int) =~= before);
        self.project = Some(p);
    }
}

} // verus!
