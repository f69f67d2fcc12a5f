use vstd::prelude::*;
use vstd::string::StringExecFns;
use crate::model::{Animation, Frame, FrameReference, BITS_ZERO};
use crate::session::AppState;
use crate::edit::{same_except_animation, same_except_frame};
use crate::text::{decimal, decimal_string};

verus! {

/// `frames` with the reference of every frame but `current` that has one given the scale and
/// position of `src`; `count` of them had one.
pub open spec fn settings_copied(before: Seq<Frame>, after: Seq<Frame>, current: int, src: FrameReference) -> bool {
    &&& after.len() == before.len()
    &&& forall|i: int| 0 <= i < before.len() ==> #[trigger] after[i] == if i != current && before[i].reference is Some {
            Frame {
                reference: Some(FrameReference {
                    scale_bits: src.scale_bits,
                    position_bits: src.position_bits,
                    ..before[i].reference.unwrap()
                }),
                ..before[i]
            }
        } else {
            before[i]
        }
}

/// How many frames of `frames` other than `current` have a reference.
pub open spec fn other_references(frames: Seq<Frame>, current: int) -> nat
    decreases frames.len(),
{
    if frames.len() == 0 {
        0
    } else {
        let last = frames.len() - 1;
        other_references(frames.drop_last(), current)
            + if last != current && frames[last].reference is Some { 1nat } else { 0nat }
    }
}

impl AppState {
    /// Gives the current frame the reference image at `path`, at the origin, scaled by
    /// `scale_bits`. Returns whether there was a current frame to give it to.
    pub fn set_frame_reference(&mut self, path: String, scale_bits: u32) -> (done: bool)
        ensures
            done == old(self).has_frame(),
            !done ==> *final(self) == *old(self),
            done ==> {
                let c = old(self).active_index();
                let a = old(self).current_animation as int;
                let f = old(self).current_frame as int;
                let op = old(self).the_project();
                let np = final(self).the_project();
                &&& final(self).project is Some
                &&& same_except_frame(op, np, c, a, f)
                &&& np.characters@[c].animations@[a].frames@[f] == (Frame {
                        reference: Some(FrameReference { file_path: path, position_bits: (BITS_ZERO, BITS_ZERO), scale_bits }),
                        ..op.characters@[c].animations@[a].frames@[f] })
                &&& *final(self) == (AppState { project: final(self).project, ..*old(self) })
            },
    {
        let (c, a, f) = match self.current_frame_indices() {
            Some(x) => x,
            None => { return false; },
        };
        let mut p = self.take_project();
        let anim = p.animation_at_mut(c, a);
        let fr = &mut anim.frames[f];
        fr.reference = Some(FrameReference::new(path, scale_bits));
        self.project = Some(p);
        true
    }

    /// Removes the reference image of the current frame. Returns whether there was a current
    /// frame.
    pub fn clear_frame_reference(&mut self) -> (done: bool)
        ensures
            done == old(self).has_frame(),
            !done ==> *final(self) == *old(self),
            done ==> {
                let c = old(self).active_index();
                let a = old(self).current_animation as int;
                let f = old(self).current_frame as int;
                let op = old(self).the_project();
                let np = final(self).the_project();
                &&& final(self).project is Some
                &&& same_except_frame(op, np, c, a, f)
                &&& np.characters@[c].animations@[a].frames@[f] == (Frame {
                        reference: None, ..op.characters@[c].animations@[a].frames@[f] })
                &&& *final(self) == (AppState { project: final(self).project, ..*old(self) })
            },
    {
        let (c, a, f) = match self.current_frame_indices() {
            Some(x) => x,
            None => { return false; },
        };
        let mut p = self.take_project();
        let anim = p.animation_at_mut(c, a);
        let fr = &mut anim.frames[f];
        fr.reference = None;
        self.project = Some(p);
        true
    }

    /// Gives the scale and position of the current frame's reference image to the reference
    /// images of every other frame of the animation. Returns the status message, or `None`
    /// when the current frame has no reference image.
    pub fn copy_reference_to_all(&mut self) -> (status: Option<String>)
        ensures
            !(old(self).has_frame() && old(self).the_frame().reference is Some) ==> *final(self) == *old(self) && status is None,
            old(self).has_frame() && old(self).the_frame().reference is Some ==> {
                let c = old(self).active_index();
                let a = old(self).current_animation as int;
                let f = old(self).current_frame as int;
                let op = old(self).the_project();
                let np = final(self).the_project();
                let oa = op.characters@[c].animations@[a];
                let na = np.characters@[c].animations@[a];
                &&& final(self).project is Some
                &&& same_except_animation(op, np, c, a)
                &&& na == (Animation { frames: na.frames, ..oa })
                &&& settings_copied(oa.frames@, na.frames@, f, old(self).the_frame().reference.unwrap())
                &&& status matches Some(m) && m@ == "Copied settings to "@ + decimal(other_references(oa.frames@, f))
                        + " other frames"@
                &&& *final(self) == (AppState { project: final(self).project, ..*old(self) })
            },
    {
        let (c, a, f) = match self.current_frame_indices() {
            Some(x) => x,
            None => { return None; },
        };
        let src = match &self.current_frame_ref() {
            Some(fr) => match &fr.reference {
                Some(r) => r.clone(),
                None => { return None; },
            },
            None => { return None; },
        };
        let mut p = self.take_project();
        let anim = p.animation_at_mut(c, a);
        let ghost orig = anim.frames@;
        let ghost a0 = *anim;
        let n = anim.frames.len();
        let mut count: u64 = 0;
        let mut i: usize = 0;
        while i < n
            invariant
                n == anim.frames.len(),
                orig.len() == n,
                *anim == (Animation { frames: anim.frames, ..a0 }),
                i <= n,
                f < n,
                count == other_references(orig.take(i as int), f as int),
                count <= i,
                forall|j: int| 0 <= j < i ==> #[trigger] anim.frames@[j] == if j != f && orig[j].reference is Some {
                    Frame {
                        reference: Some(FrameReference {
                            scale_bits: src.scale_bits,
                            position_bits: src.position_bits,
                            ..orig[j].reference.unwrap()
                        }),
                        ..orig[j]
                    }
                } else {
                    orig[j]
                },
                forall|j: int| i <= j < n ==> #[trigger] anim.frames@[j] == orig[j],
            decreases n - i,
        {
            assert(orig.take(i as int + 1).drop_last() =~= orig.take(i as int));
            if i != f {
                let fr = &mut anim.frames[i];
                match &mut fr.reference {
                    Some(r) => {
                        r.scale_bits = src.scale_bits;
                        r.position_bits = src.position_bits;
                        count = count + 1;
                    },
                    None => {},
                }
            }
            i = i + 1;
        }
        assert(orig.take(n as int) =~= orig);
        self.project = Some(p);
        proof { reveal_strlit("Copied settings to "); reveal_strlit(" other frames"); }
        let mut m = "Copied settings to ".to_owned();
        m.append(decimal_string(count as u128).as_str());
        m.append(" other frames");
        Some(m)
    }
}

} // verus!
