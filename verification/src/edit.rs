use vstd::prelude::*;
use crate::model::{Animation, Character, Frame, PlacedPart};
use crate::project::Project;

verus! {

/// `b` is `a` but for character `c`, which keeps its place.
pub open spec fn same_except_character(a: Project, b: Project, c: int) -> bool {
    &&& b == (Project { characters: b.characters, ..a })
    &&& 0 <= c < a.characters.len()
    &&& b.characters.len() == a.characters.len()
    &&& forall|i: int| 0 <= i < a.characters.len() && i != c ==> #[trigger] b.characters@[i] == a.characters@[i]
}

/// `b` is `a` but for animation `an` of character `c`, which keeps its place.
pub open spec fn same_except_animation(a: Project, b: Project, c: int, an: int) -> bool {
    &&& same_except_character(a, b, c)
    &&& b.characters@[c] == (Character { animations: b.characters@[c].animations, ..a.characters@[c] })
    &&& 0 <= an < a.characters@[c].animations.len()
    &&& b.characters@[c].animations.len() == a.characters@[c].animations.len()
    &&& forall|j: int| 0 <= j < a.characters@[c].animations.len() && j != an
        ==> #[trigger] b.characters@[c].animations@[j] == a.characters@[c].animations@[j]
}

/// `b` is `a` but for frame `f` of animation `an` of character `c`, which keeps its place.
pub open spec fn same_except_frame(a: Project, b: Project, c: int, an: int, f: int) -> bool {
    &&& same_except_animation(a, b, c, an)
    &&& b.characters@[c].animations@[an] == (Animation {
        frames: b.characters@[c].animations@[an].frames,
        ..a.characters@[c].animations@[an]
    })
    &&& 0 <= f < a.characters@[c].animations@[an].frames.len()
    &&& b.characters@[c].animations@[an].frames.len() == a.characters@[c].animations@[an].frames.len()
    &&& forall|k: int| 0 <= k < a.characters@[c].animations@[an].frames.len() && k != f
        ==> #[trigger] b.characters@[c].animations@[an].frames@[k] == a.characters@[c].animations@[an].frames@[k]
}

/// `b` is `a` but for the placed parts of frame `f` of animation `an` of character `c`.
pub open spec fn same_except_frame_parts(a: Project, b: Project, c: int, an: int, f: int) -> bool {
    &&& same_except_frame(a, b, c, an, f)
    &&& b.characters@[c].animations@[an].frames@[f] == (Frame {
        placed_parts: b.characters@[c].animations@[an].frames@[f].placed_parts,
        ..a.characters@[c].animations@[an].frames@[f]
    })
}

/// The placed parts of frame `f` of animation `an` of character `c`.
pub open spec fn parts_at(p: Project, c: int, an: int, f: int) -> Seq<PlacedPart> {
    p.characters@[c].animations@[an].frames@[f].placed_parts@
}

impl Project {
    /// Character `c`, for modification.
    pub fn character_at_mut(&mut self, c: usize) -> (r: &mut Character)
        requires
            c < old(self).characters.len(),
        ensures
            *r == old(self).characters@[c as int],
            *final(r) == final(self).characters@[c as int],
            same_except_character(*old(self), *final(self), c as int),
    {
        &mut self.characters[c]
    }

    /// Animation `an` of character `c`, for modification.
    pub fn animation_at_mut(&mut self, c: usize, an: usize) -> (r: &mut Animation)
        requires
            c < old(self).characters.len(),
            an < old(self).characters@[c as int].animations.len(),
        ensures
            *r == old(self).characters@[c as int].animations@[an as int],
            *final(r) == final(self).characters@[c as int].animations@[an as int],
            same_except_animation(*old(self), *final(self), c as int, an as int),
    {
        let ch = &mut self.characters[c];
        &mut ch.animations[an]
    }

    /// The placed parts of frame `f` of animation `an` of character `c`, for modification.
    pub fn frame_parts_mut(&mut self, c: usize, an: usize, f: usize) -> (r: &mut Vec<PlacedPart>)
        requires
            c < old(self).characters.len(),
            an < old(self).characters@[c as int].animations.len(),
            f < old(self).characters@[c as int].animations@[an as int].frames.len(),
        ensures
            *r == old(self).characters@[c as int].animations@[an as int].frames@[f as int].placed_parts,
            *final(r) == final(self).characters@[c as int].animations@[an as int].frames@[f as int].placed_parts,
            same_except_frame_parts(*old(self), *final(self), c as int, an as int, f as int),
    {
        let ch = &mut self.characters[c];
        let anim = &mut ch.animations[an];
        let frame = &mut anim.frames[f];
        &mut frame.placed_parts
    }
}

/// `parts` without the layers of ID `id`, order kept.
pub open spec fn without_id(parts: Seq<PlacedPart>, id: u64) -> Seq<PlacedPart>
    decreases parts.len(),
{
    if parts.len() == 0 {
        Seq::empty()
    } else if parts.last().id == id {
        without_id(parts.drop_last(), id)
    } else {
        without_id(parts.drop_last(), id).push(parts.last())
    }
}

/// `s` with the layers at `i` and `i + 1` exchanged.
pub open spec fn swap_adjacent(s: Seq<PlacedPart>, i: int) -> Seq<PlacedPart> {
    s.update(i, s[i + 1]).update(i + 1, s[i])
}

/// `s` with the layer at `i` moved to the top.
pub open spec fn moved_to_top(s: Seq<PlacedPart>, i: int) -> Seq<PlacedPart> {
    s.remove(i).push(s[i])
}

/// `s` with the layer at `i` moved to the bottom.
pub open spec fn moved_to_bottom(s: Seq<PlacedPart>, i: int) -> Seq<PlacedPart> {
    s.remove(i).insert(0, s[i])
}

/// `s` with the visibility of the layer at `i` flipped.
pub open spec fn visibility_toggled(s: Seq<PlacedPart>, i: int) -> Seq<PlacedPart> {
    s.update(i, PlacedPart { visible: !s[i].visible, ..s[i] })
}

impl Project {
    /// Puts `layer` on top of frame `f` of animation `an` of character `c`.
    pub fn push_layer(&mut self, c: usize, an: usize, f: usize, layer: PlacedPart)
        requires
            c < old(self).characters.len(),
            an < old(self).characters@[c as int].animations.len(),
            f < old(self).characters@[c as int].animations@[an as int].frames.len(),
        ensures
            same_except_frame_parts(*old(self), *final(self), c as int, an as int, f as int),
            parts_at(*final(self), c as int, an as int, f as int) == parts_at(*old(self), c as int, an as int, f as int).push(layer),
    {
        let parts = self.frame_parts_mut(c, an, f);
        parts.push(layer);
    }
}

impl Project {
    /// Removes the layers of ID `id` from frame `f` of animation `an` of character `c`.
    pub fn remove_layers_with_id(&mut self, c: usize, an: usize, f: usize, id: u64)
        requires
            c < old(self).characters.len(),
            an < old(self).characters@[c as int].animations.len(),
            f < old(self).characters@[c as int].animations@[an as int].frames.len(),
        ensures
            same_except_frame_parts(*old(self), *final(self), c as int, an as int, f as int),
            parts_at(*final(self), c as int, an as int, f as int) == without_id(parts_at(*old(self), c as int, an as int, f as int), id),
    {
        let parts = self.frame_parts_mut(c, an, f);
        let ghost orig = parts@;
        let mut rest: Vec<PlacedPart> = Vec::new();
        std::mem::swap(&mut rest, parts);
        assert(orig.skip(0) =~= orig);
        let n = rest.len();
        assert(orig.len() == n);
        let mut j: usize = 0;
        while rest.len() > 0
            invariant
                j <= orig.len(),
                orig.len() <= usize::MAX,
                rest@ == orig.skip(j as int),
                parts@ == without_id(orig.take(j as int), id),
            decreases rest.len(),
        {
            let p = rest.remove(0);
            assert(p == orig[j as int]);
            assert(orig.take(j as int + 1).drop_last() =~= orig.take(j as int));
            if p.id != id {
                parts.push(p);
            }
            assert(rest@ =~= orig.skip(j as int + 1));
            j = j + 1;
        }
        assert(orig.take(j as int) =~= orig);
    }

    /// Flips the visibility of layer `k` of frame `f` of animation `an` of character `c`.
    pub fn toggle_layer_visibility(&mut self, c: usize, an: usize, f: usize, k: usize)
        requires
            c < old(self).characters.len(),
            an < old(self).characters@[c as int].animations.len(),
            f < old(self).characters@[c as int].animations@[an as int].frames.len(),
            k < old(self).characters@[c as int].animations@[an as int].frames@[f as int].placed_parts.len(),
        ensures
            same_except_frame_parts(*old(self), *final(self), c as int, an as int, f as int),
            parts_at(*final(self), c as int, an as int, f as int) == visibility_toggled(parts_at(*old(self), c as int, an as int, f as int), k as int),
    {
        let parts = self.frame_parts_mut(c, an, f);
        let mut p = parts.remove(k);
        p.visible = !p.visible;
        parts.insert(k, p);
    }

    /// Exchanges layers `k` and `k + 1` of frame `f` of animation `an` of character `c`.
    pub fn swap_layers(&mut self, c: usize, an: usize, f: usize, k: usize)
        requires
            c < old(self).characters.len(),
            an < old(self).characters@[c as int].animations.len(),
            f < old(self).characters@[c as int].animations@[an as int].frames.len(),
            k + 1 < old(self).characters@[c as int].animations@[an as int].frames@[f as int].placed_parts.len(),
        ensures
            same_except_frame_parts(*old(self), *final(self), c as int, an as int, f as int),
            parts_at(*final(self), c as int, an as int, f as int) == swap_adjacent(parts_at(*old(self), c as int, an as int, f as int), k as int),
    {
        let parts = self.frame_parts_mut(c, an, f);
        let ghost orig = parts@;
        let p = parts.remove(k);
        parts.insert(k + 1, p);
        assert(parts@ =~= swap_adjacent(orig, k as int));
    }

    /// Moves layer `k` of frame `f` of animation `an` of character `c` to the top.
    pub fn move_layer_to_top(&mut self, c: usize, an: usize, f: usize, k: usize)
        requires
            c < old(self).characters.len(),
            an < old(self).characters@[c as int].animations.len(),
            f < old(self).characters@[c as int].animations@[an as int].frames.len(),
            k < old(self).characters@[c as int].animations@[an as int].frames@[f as int].placed_parts.len(),
        ensures
            same_except_frame_parts(*old(self), *final(self), c as int, an as int, f as int),
            parts_at(*final(self), c as int, an as int, f as int) == moved_to_top(parts_at(*old(self), c as int, an as int, f as int), k as int),
    {
        let parts = self.frame_parts_mut(c, an, f);
        let p = parts.remove(k);
        parts.push(p);
    }

    /// Moves layer `k` of frame `f` of animation `an` of character `c` to the bottom.
    pub fn move_layer_to_bottom(&mut self, c: usize, an: usize, f: usize, k: usize)
        requires
            c < old(self).characters.len(),
            an < old(self).characters@[c as int].animations.len(),
            f < old(self).characters@[c as int].animations@[an as int].frames.len(),
            k < old(self).characters@[c as int].animations@[an as int].frames@[f as int].placed_parts.len(),
        ensures
            same_except_frame_parts(*old(self), *final(self), c as int, an as int, f as int),
            parts_at(*final(self), c as int, an as int, f as int) == moved_to_bottom(parts_at(*old(self), c as int, an as int, f as int), k as int),
    {
        let parts = self.frame_parts_mut(c, an, f);
        let p = parts.remove(k);
        parts.insert(0, p);
    }
}

} // verus!
