use vstd::prelude::*;
use vstd::string::StringExecFns;
use crate::model::{Animation, Character, BITS_ZERO, BITS_ONE, BITS_HALF, BITS_SIXTEEN, first_index_of, lemma_first_index_of, lemma_first_index_is};

verus! {

/// Legacy reference layer for tracing and alignment (superseded by per-frame references).
#[derive(Debug)]
pub struct ReferenceLayer {
    pub visible: bool,
    /// Base64 PNG data.
    pub image_data: Option<String>,
    /// Position, scale, rotation in degrees and opacity, as single-precision bit patterns.
    pub position_bits: (u32, u32),
    pub scale_bits: u32,
    pub rotation_bits: u32,
    pub opacity_bits: u32,
}

impl ReferenceLayer {
    /// A visible empty layer at the origin, scale 1, unrotated, half opaque.
    pub fn new() -> (r: Self)
        ensures
            r.visible,
            r.image_data is None,
            r.position_bits == (BITS_ZERO, BITS_ZERO),
            r.scale_bits == BITS_ONE,
            r.rotation_bits == BITS_ZERO,
            r.opacity_bits == BITS_HALF,
    {
        ReferenceLayer {
            visible: true,
            image_data: None,
            position_bits: (BITS_ZERO, BITS_ZERO),
            scale_bits: BITS_ONE,
            rotation_bits: BITS_ZERO,
            opacity_bits: BITS_HALF,
        }
    }
}

/// Editor state saved with a project and restored when it is opened.
#[derive(Debug)]
pub struct EditorState {
    pub active_character: Option<String>,
    pub current_animation: usize,
    pub current_frame: usize,
    /// "canvas" or "editor".
    pub active_tab: String,
    /// Zoom level, as a single-precision bit pattern.
    pub zoom_level_bits: u32,
    pub show_grid: bool,
    pub show_labels: bool,
    /// Reference image opacity, as a single-precision bit pattern.
    pub reference_opacity_bits: u32,
    pub reference_show_on_top: bool,
}

impl Default for EditorState {
    /// Canvas tab, first animation and frame, zoom 16, grid and labels shown,
    /// reference at half opacity below the parts.
    fn default() -> (r: Self)
        ensures
            r.active_character is None,
            r.current_animation == 0,
            r.current_frame == 0,
            r.active_tab@ == "canvas"@,
            r.zoom_level_bits == BITS_SIXTEEN,
            r.show_grid,
            r.show_labels,
            r.reference_opacity_bits == BITS_HALF,
            !r.reference_show_on_top,
    {
        EditorState {
            active_character: None,
            current_animation: 0,
            current_frame: 0,
            active_tab: "canvas".to_owned(),
            zoom_level_bits: BITS_SIXTEEN,
            show_grid: true,
            show_labels: true,
            reference_opacity_bits: BITS_HALF,
            reference_show_on_top: false,
        }
    }
}

/// A complete project.
#[derive(Debug)]
pub struct Project {
    pub version: String,
    pub name: String,
    /// Legacy canvas size; canvas sizes are per character now.
    pub canvas_size: (u32, u32),
    pub characters: Vec<Character>,
    /// Legacy project-level animations; animations are per character now.
    pub animations: Vec<Animation>,
    /// Legacy reference layer; reference images are per frame now.
    pub reference_layer: ReferenceLayer,
    /// Reference image thumbnails (file path to base64 JPEG).
    pub reference_thumbnails: std::collections::HashMap<String, String>,
    /// Saved editor state.
    pub editor_state: EditorState,
    /// Next ID handed out to a placed part.
    pub next_part_id: u64,
    /// Set when the project was opened from the first file format and its project-level
    /// animations were handed to characters.
    pub legacy_migrated: bool,
}

/// The names of `characters`, in order.
pub open spec fn character_names(characters: Seq<Character>) -> Seq<Seq<char>> {
    characters.map_values(|c: Character| c.name@)
}

/// The format version this editor writes.
pub open spec fn current_version() -> Seq<char> {
    "2.0"@
}

impl Project {
    /// An empty project of the current version.
    pub fn new(name: &str) -> (r: Self)
        ensures
            r.version@ == current_version(),
            r.name@ == name@,
            r.canvas_size == (64u32, 64u32),
            r.characters@.len() == 0,
            r.animations@.len() == 0,
            r.reference_thumbnails@ == Map::<String, String>::empty(),
            r.next_part_id == 1,
            !r.legacy_migrated,
    {
        Project {
            version: "2.0".to_owned(),
            name: name.to_owned(),
            canvas_size: (64, 64),
            characters: Vec::new(),
            animations: Vec::new(),
            reference_layer: ReferenceLayer::new(),
            reference_thumbnails: std::collections::HashMap::new(),
            editor_state: EditorState::default(),
            next_part_id: 1,
            legacy_migrated: false,
        }
    }
    /// Index of the first character called `name`.
    pub fn character_index(&self, name: &str) -> (r: Option<usize>)
        ensures
            match r {
                Some(i) => i as int == first_index_of(character_names(self.characters@), name@),
                None => first_index_of(character_names(self.characters@), name@) == -1,
            },
    {
        proof { lemma_first_index_of(character_names(self.characters@), name@); }
        let key = name.to_owned();
        let mut i: usize = 0;
        while i < self.characters.len()
            invariant
                i <= self.characters.len(),
                key@ == name@,
                forall|j: int| 0 <= j < i ==> self.characters@[j].name@ != name@,
            decreases self.characters.len() - i,
        {
            if self.characters[i].name == key {
                assert(character_names(self.characters@)[i as int] == name@);
                assert forall|j: int| 0 <= j < i implies character_names(self.characters@)[j] != name@ by {
                    assert(character_names(self.characters@)[j] == self.characters@[j].name@);
                }
                proof { lemma_first_index_is(character_names(self.characters@), name@, i as int); }
                return Some(i);
            }
            i = i + 1;
        }
        assert forall|j: int| 0 <= j < self.characters.len() implies character_names(self.characters@)[j] != name@ by {
            assert(character_names(self.characters@)[j] == self.characters@[j].name@);
        }
        None
    }

    /// The first character called `name`.
    pub fn get_character(&self, name: &str) -> (r: Option<&Character>)
        ensures
            match r {
                Some(x) => {
                    let i = first_index_of(character_names(self.characters@), name@);
                    0 <= i && *x == self.characters@[i]
                },
                None => first_index_of(character_names(self.characters@), name@) == -1,
            },
    {
        proof { lemma_first_index_of(character_names(self.characters@), name@); }
        match self.character_index(name) {
            Some(i) => Some(&self.characters[i]),
            None => None,
        }
    }

    /// The first character called `name`, for modification.
    pub fn get_character_mut(&mut self, name: &str) -> (r: Option<&mut Character>)
        ensures
            first_index_of(character_names(old(self).characters@), name@) == -1 ==> r is None && *final(self) == *old(self),
            first_index_of(character_names(old(self).characters@), name@) >= 0 ==> r is Some,
            match r {
                Some(x) => {
                    let i = first_index_of(character_names(old(self).characters@), name@);
                    &&& 0 <= i < old(self).characters.len()
                    &&& *x == old(self).characters@[i]
                    &&& final(self).characters@ == old(self).characters@.update(i, *final(x))
                    &&& *final(self) == (Project { characters: final(self).characters, ..*old(self) })
                },
                None => true,
            },
    {
        proof { lemma_first_index_of(character_names(self.characters@), name@); }
        match self.character_index(name) {
            Some(i) => Some(&mut self.characters[i]),
            None => None,
        }
    }


    pub fn add_character(&mut self, character: Character)
        ensures
            final(self).characters@ == old(self).characters@.push(character),
            *final(self) == (Project { characters: final(self).characters, ..*old(self) }),
    {
        self.characters.push(character);
    }

    /// Hands out a fresh ID for a placed part.
    pub fn next_id(&mut self) -> (r: u64)
        requires
            old(self).next_part_id < u64::MAX,
        ensures
            r == old(self).next_part_id,
            final(self).next_part_id == old(self).next_part_id + 1,
            *final(self) == (Project { next_part_id: final(self).next_part_id, ..*old(self) }),
    {
        let id = self.next_part_id;
        self.next_part_id = self.next_part_id + 1;
        id
    }

    /// Whether the project was migrated from the first file format when it was opened: it
    /// had project-level animations, which were handed to its characters.
    pub fn was_migrated(&self) -> (r: bool)
        ensures
            r == self.legacy_migrated,
    {
        self.legacy_migrated
    }
}

impl Default for Project {
    /// An empty project called "Untitled".
    fn default() -> (r: Self)
        ensures
            r.version@ == current_version(),
            r.name@ == "Untitled"@,
            r.characters@.len() == 0,
            r.animations@.len() == 0,
            r.next_part_id == 1,
    {
        Project::new("Untitled")
    }
}

/// `s` followed by `suffix`.
pub fn concat_str(s: String, suffix: &str) -> (r: String)
    ensures
        r@ == s@ + suffix@,
{
    let mut out = s;
    out.append(suffix);
    out
}

} // verus!
