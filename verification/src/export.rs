use vstd::prelude::*;
use vstd::string::{StringExecFns, StrSliceExecFns};
use crate::model::{Animation, Character, PlacedPart, first_index_of, lemma_first_index_of, part_names, state_names};
use crate::project::{Project, character_names};
use crate::session::AppState;

verus! {

/// Frames laid out in a single row when there are at most this many.
pub const STRIP_MAX_FRAMES: usize = 8;

/// The least `c` with `c * c >= n`.
pub open spec fn is_ceil_sqrt(c: int, n: int) -> bool {
    &&& 0 <= c
    &&& c * c >= n
    &&& (c == 0 || (c - 1) * (c - 1) < n)
}

/// Columns and rows of a spritesheet of `n` frames: one row for up to eight frames, else a
/// near-square grid with as many columns as the square root of `n` rounded up.
pub open spec fn sheet_grid(n: int, cols: int, rows: int) -> bool {
    if n <= STRIP_MAX_FRAMES {
        cols == n && rows == 1
    } else {
        is_ceil_sqrt(cols, n) && rows == (n + cols - 1) / cols
    }
}

/// The least `c` with `c * c >= n`.
pub fn ceil_sqrt(n: usize) -> (c: usize)
    ensures
        is_ceil_sqrt(c as int, n as int),
{
    let mut c: usize = 0;
    let mut sq: u128 = 0;
    while sq < n as u128
        invariant
            c <= n,
            sq == c * c,
            c == 0 || (c - 1) * (c - 1) < n,
        decreases n - c,
    {
        assert(c < n) by (nonlinear_arith)
            requires
                c * c < n,
        ;
        c = c + 1;
        assert(c * c <= 0xffff_ffff_ffff_ffff * 0xffff_ffff_ffff_ffffu128) by (nonlinear_arith)
            requires
                c <= 0xffff_ffff_ffff_ffffu64,
        ;
        sq = (c as u128) * (c as u128);
    }
    c
}

/// Columns and rows of the spritesheet of `n` frames.
pub fn sheet_layout(n: usize) -> (r: (usize, usize))
    ensures
        sheet_grid(n as int, r.0 as int, r.1 as int),
        n > 0 ==> r.0 > 0 && r.0 * r.1 >= n,
{
    if n <= STRIP_MAX_FRAMES {
        return (n, 1);
    }
    let cols = ceil_sqrt(n);
    assert(cols > 0);
    assert(cols <= n) by (nonlinear_arith)
        requires
            cols > 0,
            cols == 1 || (cols - 1) * (cols - 1) < n,
            n > 8,
    ;
    let rows = (n - 1) / cols + 1;
    proof {
        let ni = n as int;
        let ci = cols as int;
        let ri = rows as int;
        assert(ri == (ni - 1) / ci + 1);
        assert(ri == (ni + ci - 1) / ci) by (nonlinear_arith)
            requires
                ci > 0,
                ni > 0,
                ri == (ni - 1) / ci + 1,
        {
            assert((ni + ci - 1) / ci == (ni - 1) / ci + 1) by {
                vstd::arithmetic::div_mod::lemma_div_plus_one(ni - 1, ci);
            }
        }
        assert(ci * ri >= ni) by (nonlinear_arith)
            requires
                ci > 0,
                ni > 0,
                ri == (ni - 1) / ci + 1,
        {
            vstd::arithmetic::div_mod::lemma_fundamental_div_mod(ni - 1, ci);
        }
    }
    (cols, rows)
}

/// Top-left corner of cell `i` in a spritesheet of `cols` columns of `w` by `h` frames.
pub open spec fn cell_origin(i: int, cols: int, w: int, h: int) -> (int, int) {
    ((i % cols) * w, (i / cols) * h)
}

/// Top-left corner of frame `i` in a spritesheet of `cols` columns of `w` by `h` frames.
pub fn frame_origin(i: usize, cols: usize, w: u32, h: u32) -> (r: (u32, u32))
    requires
        cols > 0,
        (i % cols) * w <= u32::MAX,
        (i / cols) * h <= u32::MAX,
        i % cols <= u32::MAX,
        i / cols <= u32::MAX,
    ensures
        (r.0 as int, r.1 as int) == cell_origin(i as int, cols as int, w as int, h as int),
{
    let col = (i % cols) as u32;
    let row = (i / cols) as u32;
    (col * w, row * h)
}

/// Whether the last four characters of `s` spell ".png" in any letter case.
pub open spec fn ends_with_png(s: Seq<char>) -> bool {
    &&& s.len() >= 4
    &&& s[s.len() - 4] == '.'
    &&& (s[s.len() - 3] == 'p' || s[s.len() - 3] == 'P')
    &&& (s[s.len() - 2] == 'n' || s[s.len() - 2] == 'N')
    &&& (s[s.len() - 1] == 'g' || s[s.len() - 1] == 'G')
}

/// The file a spritesheet is written to: `output` itself when it ends in ".png" in any case,
/// else `output` with ".png" appended.
pub fn png_output_path(output: &str) -> (r: String)
    ensures
        r@ == if ends_with_png(output@) { output@ } else { output@ + ".png"@ },
{
    let n = output.unicode_len();
    let ends = n >= 4 && output.get_char(n - 4) == '.'
        && (output.get_char(n - 3) == 'p' || output.get_char(n - 3) == 'P')
        && (output.get_char(n - 2) == 'n' || output.get_char(n - 2) == 'N')
        && (output.get_char(n - 1) == 'g' || output.get_char(n - 1) == 'G');
    let mut r = output.to_owned();
    if !ends {
        r.append(".png");
    }
    r
}

/// Whether `s` starts with ".png" in lower case.
pub open spec fn starts_with_png(s: Seq<char>) -> bool {
    &&& s.len() >= 4
    &&& s[0] == '.'
    &&& s[1] == 'p'
    &&& s[2] == 'n'
    &&& s[3] == 'g'
}

/// Whether the last four characters of `s` are ".png" in lower case.
pub open spec fn ends_with_lower_png(s: Seq<char>) -> bool {
    &&& s.len() >= 4
    &&& s[s.len() - 4] == '.'
    &&& s[s.len() - 3] == 'p'
    &&& s[s.len() - 2] == 'n'
    &&& s[s.len() - 1] == 'g'
}

/// `s` with every ".png" (lower case), taken from the left without overlap, replaced by
/// ".json".
pub open spec fn replace_png(s: Seq<char>) -> Seq<char>
    decreases s.len(),
{
    if starts_with_png(s) {
        ".json"@ + replace_png(s.skip(4))
    } else if s.len() > 0 {
        seq![s[0]] + replace_png(s.skip(1))
    } else {
        Seq::empty()
    }
}

/// The metadata path of spritesheet path `s`: every lower-case ".png" becomes ".json", and a
/// final ".png" written in another letter case becomes ".json" too.
pub open spec fn png_to_json(s: Seq<char>) -> Seq<char> {
    if ends_with_png(s) && !ends_with_lower_png(s) {
        replace_png(s.take(s.len() - 4)) + ".json"@
    } else {
        replace_png(s)
    }
}

/// A path ending in a lower-case ".png" turns into one ending in "n", the end of ".json".
pub proof fn lemma_replace_png_ends_json(s: Seq<char>)
    requires
        ends_with_lower_png(s),
    ensures
        replace_png(s).len() > 0,
        replace_png(s).last() == 'n',
    decreases s.len(),
{
    reveal_strlit(".json");
    assert(".json"@.len() == 5 && ".json"@[4] == 'n');
    if starts_with_png(s) {
        let rest = s.skip(4);
        if rest.len() == 0 {
            assert(replace_png(rest) =~= Seq::<char>::empty());
            assert(replace_png(s) =~= ".json"@);
        } else {
            if rest.len() < 4 {
                let k = s.len() - 4;
                assert(1 <= k <= 3);
                assert(s[k] == '.');
                assert(false);
            }
            assert(ends_with_lower_png(rest)) by {
                assert(rest[rest.len() - 4] == s[s.len() - 4]);
                assert(rest[rest.len() - 3] == s[s.len() - 3]);
                assert(rest[rest.len() - 2] == s[s.len() - 2]);
                assert(rest[rest.len() - 1] == s[s.len() - 1]);
            }
            lemma_replace_png_ends_json(rest);
            let t = replace_png(rest);
            assert((".json"@ + t).last() == t.last());
        }
    } else {
        assert(s.len() > 4);
        let rest = s.skip(1);
        assert(ends_with_lower_png(rest)) by {
            assert(rest[rest.len() - 4] == s[s.len() - 4]);
            assert(rest[rest.len() - 3] == s[s.len() - 3]);
            assert(rest[rest.len() - 2] == s[s.len() - 2]);
            assert(rest[rest.len() - 1] == s[s.len() - 1]);
        }
        lemma_replace_png_ends_json(rest);
        let t = replace_png(rest);
        assert((seq![s[0]] + t).last() == t.last());
    }
}

/// The metadata path of a path ending in ".png", in any letter case, ends in "n" and so is
/// never the path itself.
pub proof fn lemma_png_to_json_ends_json(s: Seq<char>)
    requires
        ends_with_png(s),
    ensures
        png_to_json(s).len() > 0,
        png_to_json(s).last() == 'n',
        png_to_json(s) != s,
{
    reveal_strlit(".json");
    assert(".json"@.len() == 5 && ".json"@[4] == 'n');
    if ends_with_lower_png(s) {
        lemma_replace_png_ends_json(s);
    } else {
        let t = replace_png(s.take(s.len() - 4));
        assert((t + ".json"@).last() == 'n');
    }
    assert(s.last() != 'n');
}

/// `s` with every lower-case ".png", taken from the left without overlap, replaced by ".json".
fn replace_png_str(s: &str) -> (r: String)
    ensures
        r@ == replace_png(s@),
{
    let n = s.unicode_len();
    let mut out = String::new();
    let mut i: usize = 0;
    assert(s@.skip(0) =~= s@);
    assert(out@ + replace_png(s@) =~= replace_png(s@));
    while i < n
        invariant
            n == s@.len(),
            i <= n,
            out@ + replace_png(s@.skip(i as int)) == replace_png(s@),
        decreases n - i,
    {
        let ghost rest = s@.skip(i as int);
        if n - i >= 4 && s.get_char(i) == '.' && s.get_char(i + 1) == 'p' && s.get_char(i + 2) == 'n'
            && s.get_char(i + 3) == 'g' {
            assert(starts_with_png(rest));
            assert(rest.skip(4) =~= s@.skip(i as int + 4));
            out.append(".json");
            assert(out@ + replace_png(s@.skip(i as int + 4)) =~= replace_png(s@));
            i = i + 4;
        } else {
            assert(!starts_with_png(rest));
            assert(rest.skip(1) =~= s@.skip(i as int + 1));
            let piece = s.substring_char(i, i + 1);
            assert(piece@ =~= seq![rest[0]]);
            out.append(piece);
            assert(out@ + replace_png(s@.skip(i as int + 1)) =~= replace_png(s@));
            i = i + 1;
        }
    }
    assert(s@.skip(n as int) =~= Seq::<char>::empty());
    assert(out@ + Seq::<char>::empty() =~= out@);
    out
}

/// The metadata file written beside spritesheet `png`: every lower-case ".png" in it becomes
/// ".json", as does a final ".png" in another letter case; for a sheet path ending in ".png"
/// it is never the sheet path itself.
pub fn json_path_for(png: &str) -> (r: String)
    ensures
        r@ == png_to_json(png@),
        ends_with_png(png@) ==> r@ != png@,
{
    proof {
        if ends_with_png(png@) {
            lemma_png_to_json_ends_json(png@);
        }
    }
    let n = png.unicode_len();
    let upper_end = n >= 4 && png.get_char(n - 4) == '.'
        && (png.get_char(n - 3) == 'p' || png.get_char(n - 3) == 'P')
        && (png.get_char(n - 2) == 'n' || png.get_char(n - 2) == 'N')
        && (png.get_char(n - 1) == 'g' || png.get_char(n - 1) == 'G')
        && !(png.get_char(n - 3) == 'p' && png.get_char(n - 2) == 'n' && png.get_char(n - 1) == 'g');
    if upper_end {
        let head = png.substring_char(0, n - 4);
        assert(head@ =~= png@.take(png@.len() - 4));
        let mut r = replace_png_str(head);
        r.append(".json");
        r
    } else {
        replace_png_str(png)
    }
}

/// Whether `c` is alphabetic or numeric in Unicode's sense.
pub uninterp spec fn unicode_alphanumeric(c: char) -> bool;

/// Calls `char::is_alphanumeric`. Claimed: the answer depends on `c` alone.
#[verifier::external_body]
fn is_alphanumeric(c: char) -> (r: bool)
    ensures
        r == unicode_alphanumeric(c),
{
    c.is_alphanumeric()
}

/// `c` as it may stand in a file name: kept when alphanumeric, '_' or '-', else '_'.
pub open spec fn file_safe_char(c: char) -> char {
    if unicode_alphanumeric(c) || c == '_' || c == '-' { c } else { '_' }
}

/// `name` with every character that may not stand in a file name replaced by '_'.
pub open spec fn file_safe(name: Seq<char>) -> Seq<char> {
    name.map_values(|c: char| file_safe_char(c))
}

/// `name` with every character other than alphanumerics, '_' and '-' replaced by '_'.
pub fn safe_file_name(name: &str) -> (r: String)
    ensures
        r@ == file_safe(name@),
{
    proof { reveal_strlit("_"); }
    let n = name.unicode_len();
    let mut out = String::new();
    let mut i: usize = 0;
    while i < n
        invariant
            n == name@.len(),
            i <= n,
            out@ == file_safe(name@).take(i as int),
        decreases n - i,
    {
        let c = name.get_char(i);
        let ghost prev = out@;
        assert(file_safe(name@).take(i as int + 1) =~= file_safe(name@).take(i as int).push(file_safe_char(c)));
        if is_alphanumeric(c) || c == '_' || c == '-' {
            let piece = name.substring_char(i, i + 1);
            assert(piece@ =~= seq![c]);
            out.append(piece);
        } else {
            proof { reveal_strlit("_"); }
            assert("_"@ =~= seq!['_']);
            out.append("_");
        }
        assert(out@ =~= prev.push(file_safe_char(c)));
        i = i + 1;
    }
    assert(file_safe(name@).take(n as int) =~= file_safe(name@));
    out
}

/// "dir/character_animation.png", the spritesheet file of one animation when all are exported.
pub fn animation_sheet_path(dir: &str, character: &str, safe_animation: &str) -> (r: String)
    ensures
        r@ == dir@ + "/"@ + character@ + "_"@ + safe_animation@ + ".png"@,
{
    let mut r = dir.to_owned();
    r.append("/");
    r.append(character);
    r.append("_");
    r.append(safe_animation);
    r.append(".png");
    r
}

/// The image a placed layer shows: the data of the rotation at its angle in the first state
/// of its name, of the first part of its name, of the first character of its name.
pub open spec fn layer_image(p: Project, layer: PlacedPart) -> Option<String> {
    let ci = first_index_of(character_names(p.characters@), layer.character_name@);
    if ci < 0 {
        None
    } else {
        let parts = p.characters@[ci].parts@;
        let pi = first_index_of(part_names(parts), layer.part_name@);
        if pi < 0 {
            None
        } else {
            let states = parts[pi].states@;
            let si = first_index_of(state_names(states), layer.state_name@);
            if si < 0 || !states[si].rotations@.contains_key(layer.rotation) {
                None
            } else {
                states[si].rotations@[layer.rotation].image_data
            }
        }
    }
}

/// The base64 image a placed layer shows, if any.
pub fn placed_image_data(project: &Project, layer: &PlacedPart) -> (r: Option<String>)
    ensures
        r == layer_image(*project, *layer),
{
    let ch = match project.get_character(layer.character_name.as_str()) {
        Some(c) => c,
        None => { return None; },
    };
    let part = match ch.get_part(layer.part_name.as_str()) {
        Some(p) => p,
        None => { return None; },
    };
    let st = match part.get_state(layer.state_name.as_str()) {
        Some(s) => s,
        None => { return None; },
    };
    broadcast use vstd::std_specs::hash::group_hash_axioms;
    match st.rotations.get(&layer.rotation) {
        Some(rot) => match &rot.image_data {
            Some(d) => Some(d.clone()),
            None => None,
        },
        None => None,
    }
}

impl AppState {
    /// The character whose animations are exported: the active one, by its index in the
    /// project. Fails with "No project loaded", "No character selected" or
    /// "Character not found".
    pub fn export_character(&self) -> (r: Result<usize, String>)
        ensures
            match r {
                Ok(c) => self.project is Some && self.active_index() >= 0 && c as int == self.active_index(),
                Err(m) => if self.project is None {
                    m@ == "No project loaded"@
                } else if self.active_character is None {
                    m@ == "No character selected"@
                } else {
                    self.active_index() < 0 && m@ == "Character not found"@
                },
            },
    {
        proof {
            reveal_strlit("No project loaded");
            reveal_strlit("No character selected");
            reveal_strlit("Character not found");
        }
        if self.project.is_none() {
            return Err("No project loaded".to_owned());
        }
        if self.active_character.is_none() {
            return Err("No character selected".to_owned());
        }
        match self.active_character_index() {
            Some(c) => Ok(c),
            None => Err("Character not found".to_owned()),
        }
    }

    /// The animation exported alone: the current animation of the active character. Fails as
    /// `export_character` does, then with "Animation not found" or "Animation has no frames".
    pub fn export_animation(&self) -> (r: Result<(usize, usize), String>)
        ensures
            match r {
                Ok((c, a)) => self.has_animation() && c as int == self.active_index()
                    && a == self.current_animation && self.the_animation().frames.len() > 0,
                Err(m) => if self.project is None {
                    m@ == "No project loaded"@
                } else if self.active_character is None {
                    m@ == "No character selected"@
                } else if self.active_index() < 0 {
                    m@ == "Character not found"@
                } else if !self.has_animation() {
                    m@ == "Animation not found"@
                } else {
                    self.the_animation().frames.len() == 0 && m@ == "Animation has no frames"@
                },
            },
    {
        proof {
            reveal_strlit("Animation not found");
            reveal_strlit("Animation has no frames");
        }
        let c = match self.export_character() {
            Ok(c) => c,
            Err(m) => { return Err(m); },
        };
        let p = match &self.project {
            Some(p) => p,
            None => { return Err("No project loaded".to_owned()); },
        };
        proof { lemma_first_index_of(character_names(p.characters@), self.active_character.unwrap()@); }
        if self.current_animation >= p.characters[c].animations.len() {
            return Err("Animation not found".to_owned());
        }
        if p.characters[c].animations[self.current_animation].frames.len() == 0 {
            return Err("Animation has no frames".to_owned());
        }
        Ok((c, self.current_animation))
    }
}

/// The indices of the animations of `c` that an export of the whole character writes: those
/// with at least one frame, in increasing order. An animation without frames is skipped.
pub fn animations_to_export(c: &Character) -> (r: Vec<usize>)
    ensures
        forall|k: int| 0 <= k < r@.len() ==> #[trigger] r@[k] < c.animations@.len()
            && c.animations@[r@[k] as int].frames@.len() > 0,
        forall|k1: int, k2: int| 0 <= k1 < k2 < r@.len() ==> r@[k1] < r@[k2],
        forall|a: int| 0 <= a < c.animations@.len() && #[trigger] c.animations@[a].frames@.len() > 0
            ==> r@.contains(a as usize),
{
    let mut r: Vec<usize> = Vec::new();
    let n = c.animations.len();
    let mut i: usize = 0;
    while i < n
        invariant
            n == c.animations@.len(),
            i <= n,
            forall|k: int| 0 <= k < r@.len() ==> #[trigger] r@[k] < i
                && c.animations@[r@[k] as int].frames@.len() > 0,
            forall|k1: int, k2: int| 0 <= k1 < k2 < r@.len() ==> r@[k1] < r@[k2],
            forall|a: int| 0 <= a < i && #[trigger] c.animations@[a].frames@.len() > 0
                ==> r@.contains(a as usize),
        decreases n - i,
    {
        if c.animations[i].frames.len() > 0 {
            let ghost before = r@;
            r.push(i);
            proof {
                assert(r@[r@.len() - 1] == i);
                assert forall|a: int| 0 <= a < i + 1 && #[trigger] c.animations@[a].frames@.len() > 0
                    implies r@.contains(a as usize) by {
                    if a < i {
                        let k = choose|k: int| 0 <= k < before.len() && before[k] == a as usize;
                        assert(r@[k] == a as usize);
                    }
                }
            }
        }
        i = i + 1;
    }
    r
}

/// A frame of `n` laid out in a grid of `cols` columns and `rows` rows gets a cell inside it.
pub proof fn lemma_cell_in_grid(n: int, cols: int, rows: int, i: int)
    requires
        sheet_grid(n, cols, rows),
        0 <= i < n,
    ensures
        cols > 0,
        0 <= i % cols < cols,
        0 <= i / cols < rows,
{
    if cols <= 0 {
        assert(cols * cols >= n) by {
            if n > 8 { } else { assert(cols == n); }
        }
        assert(cols == 0);
        assert(false);
    }
    vstd::arithmetic::div_mod::lemma_mod_bound(i, cols);
    vstd::arithmetic::div_mod::lemma_div_basics_4(i, cols);
    vstd::arithmetic::div_mod::lemma_div_is_ordered(i, n - 1, cols);
    if n <= 8 {
        vstd::arithmetic::div_mod::lemma_basic_div(n - 1, cols);
    } else {
        vstd::arithmetic::div_mod::lemma_div_plus_one(n - 1, cols);
        assert(rows == (n - 1) / cols + 1) by {
            assert(cols + (n - 1) == n + cols - 1);
        }
    }
}

/// Where one frame sits in a spritesheet, and how long it shows.
#[derive(Debug, Clone, Copy)]
pub struct FrameMeta {
    pub x: u32,
    pub y: u32,
    pub width: u32,
    pub height: u32,
    pub duration_ms: u32,
}

/// The metadata written beside a spritesheet.
#[derive(Debug)]
pub struct SheetMeta {
    /// File name of the sheet.
    pub sprite_sheet: String,
    /// The character, for sheets of a whole-character export.
    pub character: Option<String>,
    pub animation: String,
    pub frame_width: u32,
    pub frame_height: u32,
    pub columns: usize,
    pub rows: usize,
    pub frames: Vec<FrameMeta>,
}

/// The metadata of frame `i`, shown for `duration_ms`, in a sheet of `cols` columns of
/// `canvas`-sized frames.
pub open spec fn frame_meta(i: int, cols: int, canvas: (u32, u32), duration_ms: u32) -> FrameMeta {
    FrameMeta {
        x: ((i % cols) * canvas.0) as u32,
        y: ((i / cols) * canvas.1) as u32,
        width: canvas.0,
        height: canvas.1,
        duration_ms,
    }
}

/// The metadata of the spritesheet `sheet_file` of `animation`, laid out in `cols` columns
/// and `rows` rows of `canvas`-sized frames: the sheet's file name, the character's name for
/// a whole-character export, the animation's name, the frame size, the grid, and each frame's
/// place and duration.
pub fn sheet_metadata(sheet_file: &str, character: Option<&str>, animation: &Animation, canvas: (u32, u32),
    cols: usize, rows: usize) -> (r: SheetMeta)
    requires
        sheet_grid(animation.frames@.len() as int, cols as int, rows as int),
        cols <= u32::MAX,
        rows <= u32::MAX,
        cols * canvas.0 <= u32::MAX,
        rows * canvas.1 <= u32::MAX,
    ensures
        r.sprite_sheet@ == sheet_file@,
        match character {
            Some(c) => r.character matches Some(rc) && rc@ == c@,
            None => r.character is None,
        },
        r.animation@ == animation.name@,
        r.frame_width == canvas.0,
        r.frame_height == canvas.1,
        r.columns == cols,
        r.rows == rows,
        r.frames@.len() == animation.frames@.len(),
        forall|i: int| 0 <= i < r.frames@.len() ==>
            #[trigger] r.frames@[i] == frame_meta(i, cols as int, canvas, animation.frames@[i].duration_ms),
{
    let n = animation.frames.len();
    let mut frames: Vec<FrameMeta> = Vec::new();
    let mut i: usize = 0;
    while i < n
        invariant
            n == animation.frames@.len(),
            i <= n,
            sheet_grid(n as int, cols as int, rows as int),
            cols <= u32::MAX,
            rows <= u32::MAX,
            cols * canvas.0 <= u32::MAX,
            rows * canvas.1 <= u32::MAX,
            frames@.len() == i,
            forall|k: int| 0 <= k < i ==>
                #[trigger] frames@[k] == frame_meta(k, cols as int, canvas, animation.frames@[k].duration_ms),
        decreases n - i,
    {
        proof {
            lemma_cell_in_grid(n as int, cols as int, rows as int, i as int);
            vstd::arithmetic::mul::lemma_mul_inequality((i % cols) as int, cols as int, canvas.0 as int);
            vstd::arithmetic::mul::lemma_mul_inequality((i / cols) as int, rows as int, canvas.1 as int);
        }
        let (x, y) = frame_origin(i, cols, canvas.0, canvas.1);
        frames.push(FrameMeta { x, y, width: canvas.0, height: canvas.1, duration_ms: animation.frames[i].duration_ms });
        i = i + 1;
    }
    let character = match character {
        Some(c) => Some(c.to_owned()),
        None => None,
    };
    SheetMeta {
        sprite_sheet: sheet_file.to_owned(),
        character,
        animation: animation.name.clone(),
        frame_width: canvas.0,
        frame_height: canvas.1,
        columns: cols,
        rows,
        frames,
    }
}

} // verus!
