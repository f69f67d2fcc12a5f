use vstd::prelude::*;
use crate::imaging::{is_pixel_opaque, pixel_opaque};
use crate::session::AppState;
use crate::types::ActiveTab;

verus! {

/// A layer under the pointer, found by its bounds, with the pixel of its image the pointer is on.
#[derive(Debug)]
pub struct CanvasHit {
    pub id: u64,
    pub character_name: String,
    pub part_name: String,
    pub state_name: String,
    /// The layer's base64 image, when it has one.
    pub image_data: Option<String>,
    /// Column and row of the image pixel under the pointer.
    pub pixel: (u32, u32),
}

/// Whether the pointer is on the layer itself: on an opaque pixel of its image, or anywhere
/// on a layer without an image.
pub open spec fn hits_layer(h: CanvasHit) -> bool {
    match h.image_data {
        Some(d) => pixel_opaque(d@, h.pixel.0, h.pixel.1),
        None => true,
    }
}

/// Index of the first of `hits` that the pointer is on, or -1.
pub open spec fn first_solid(hits: Seq<CanvasHit>) -> int
    decreases hits.len(),
{
    if hits.len() == 0 {
        -1
    } else if hits_layer(hits[0]) {
        0
    } else {
        let rest = first_solid(hits.skip(1));
        if rest < 0 { -1 } else { rest + 1 }
    }
}

/// `first_solid` is the least index of a hit the pointer is on, or -1 when there is none.
pub proof fn lemma_first_solid(hits: Seq<CanvasHit>)
    ensures
        -1 <= first_solid(hits) < hits.len(),
        first_solid(hits) >= 0 ==> hits_layer(hits[first_solid(hits)]),
        forall|k: int| 0 <= k < hits.len() && (first_solid(hits) < 0 || k < first_solid(hits))
            ==> !hits_layer(#[trigger] hits[k]),
    decreases hits.len(),
{
    if hits.len() > 0 && !hits_layer(hits[0]) {
        lemma_first_solid(hits.skip(1));
        assert forall|k: int| 0 <= k < hits.len() && (first_solid(hits) < 0 || k < first_solid(hits))
            implies !hits_layer(#[trigger] hits[k]) by {
            if k > 0 {
                assert(hits[k] == hits.skip(1)[k - 1]);
            }
        }
    }
}

/// Whether the pointer is on the layer of `h`.
pub fn hit_is_solid(h: &CanvasHit) -> (r: bool)
    ensures
        r == hits_layer(*h),
{
    match &h.image_data {
        Some(d) => is_pixel_opaque(d.as_str(), h.pixel.0, h.pixel.1),
        None => true,
    }
}

/// Index of the first of `hits` that the pointer is on.
pub fn first_solid_hit(hits: &Vec<CanvasHit>) -> (r: Option<usize>)
    ensures
        match r {
            Some(k) => k as int == first_solid(hits@) && k < hits.len(),
            None => first_solid(hits@) == -1,
        },
{
    proof { lemma_first_solid(hits@); }
    let mut k: usize = 0;
    while k < hits.len()
        invariant
            k <= hits.len(),
            forall|j: int| 0 <= j < k ==> !hits_layer(#[trigger] hits@[j]),
        decreases hits.len() - k,
    {
        if hit_is_solid(&hits[k]) {
            proof {
                lemma_first_solid(hits@);
                let f = first_solid(hits@);
                if f >= 0 && f < k { assert(!hits_layer(hits@[f])); }
                if f < 0 || f > k { assert(!hits_layer(hits@[k as int])); }
            }
            return Some(k);
        }
        k = k + 1;
    }
    proof {
        lemma_first_solid(hits@);
        let f = first_solid(hits@);
        if f >= 0 { assert(!hits_layer(hits@[f])); }
    }
    None
}

/// The layer a click selects among the visible layers under the pointer, topmost first: the
/// first the pointer is on, else the topmost, else none.
pub open spec fn click_choice(hits: Seq<CanvasHit>) -> Option<u64> {
    if first_solid(hits) >= 0 {
        Some(hits[first_solid(hits)].id)
    } else if hits.len() > 0 {
        Some(hits[0].id)
    } else {
        None
    }
}

/// The ID of the layer a click selects among `hits`, the visible layers under the pointer,
/// topmost first.
pub fn pick_clicked_layer(hits: &Vec<CanvasHit>) -> (r: Option<u64>)
    ensures
        r == click_choice(hits@),
{
    match first_solid_hit(hits) {
        Some(k) => Some(hits[k].id),
        None => if hits.len() > 0 { Some(hits[0].id) } else { None },
    }
}

impl AppState {
    /// Selects the layer a click chose, and remembers it to check double clicks.
    pub fn apply_click(&mut self, chosen: Option<u64>)
        ensures
            *final(self) == (AppState {
                selected_part_id: chosen,
                pointer: crate::session::PointerState { last_clicked_part_id: chosen, ..old(self).pointer },
                ..*old(self) }),
    {
        self.pointer.last_clicked_part_id = chosen;
        if chosen != self.selected_part_id {
            self.selected_part_id = chosen;
        }
    }

    /// A double click on the layers `hits` under the pointer, topmost first, when the first
    /// click had chosen `previous`: when the first layer the pointer is on is the one the
    /// first click chose, its part opens in the character editor in its state.
    pub fn apply_double_click(&mut self, previous: Option<u64>, hits: &Vec<CanvasHit>)
        ensures
            ({
                let f = first_solid(hits@);
                if f >= 0 && previous == Some(hits@[f].id) {
                    let h = hits@[f];
                    &&& final(self).active_tab == ActiveTab::CharacterEditor(h.character_name)
                    &&& final(self).editor_selected_part == Some(h.part_name)
                    &&& final(self).editor_selected_state == Some(h.state_name)
                    &&& *final(self) == (AppState {
                            active_tab: final(self).active_tab,
                            editor_selected_part: final(self).editor_selected_part,
                            editor_selected_state: final(self).editor_selected_state,
                            ..*old(self) })
                } else {
                    *final(self) == *old(self)
                }
            }),
    {
        match first_solid_hit(hits) {
            Some(k) => {
                proof { lemma_first_solid(hits@); }
                let h = &hits[k];
                if previous == Some(h.id) {
                    self.active_tab = ActiveTab::CharacterEditor(h.character_name.clone());
                    self.editor_selected_part = Some(h.part_name.clone());
                    self.editor_selected_state = Some(h.state_name.clone());
                }
            },
            None => {},
        }
    }
}

} // verus!
