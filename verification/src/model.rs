use vstd::prelude::*;
use vstd::std_specs::hash::spec_hash_map_iter;
use vstd::std_specs::iter::IteratorSpec;

verus! {

/// Angle increments of the pre-drawn rotations of a state.
#[derive(Debug, Clone, Copy, PartialEq, Eq)]
pub enum RotationMode {
    /// Eight rotations: 0, 45, 90, ... 315 degrees.
    Deg45,
    /// Sixteen rotations at 22.5-degree steps, truncated to whole degrees.
    Deg22_5,
}

/// The angles, in whole degrees, of the rotations of `mode`, in increasing order.
pub open spec fn spec_angles(mode: RotationMode) -> Seq<u16> {
    match mode {
        RotationMode::Deg45 => Seq::new(8, |i: int| (45 * i) as u16),
        RotationMode::Deg22_5 => Seq::new(16, |i: int| ((i * 225) / 10) as u16),
    }
}

/// The reflection of `angle` across the horizontal axis: 45 to 315, 90 to 270; 0 and 180
/// stay.
pub open spec fn spec_mirror_angle(angle: u16) -> u16 {
    if angle == 0 || angle == 180 {
        angle
    } else {
        (360 - angle) as u16
    }
}

/// Index of the first element of `s` equal to `a`, or -1 when there is none.
pub open spec fn index_in(s: Seq<u16>, a: u16) -> int
    decreases s.len(),
{
    if s.len() == 0 {
        -1
    } else if index_in(s.drop_last(), a) >= 0 {
        index_in(s.drop_last(), a)
    } else if s.last() == a {
        s.len() - 1
    } else {
        -1
    }
}

/// `index_in` is the least index holding `a`, or -1 when none does.
pub proof fn lemma_index_in(s: Seq<u16>, a: u16)
    ensures
        -1 <= index_in(s, a) < s.len(),
        index_in(s, a) >= 0 ==> s[index_in(s, a)] == a,
        index_in(s, a) < 0 ==> !s.contains(a),
        forall|k: int| 0 <= k < index_in(s, a) ==> s[k] != a,
    decreases s.len(),
{
    if s.len() > 0 {
        lemma_index_in(s.drop_last(), a);
        if index_in(s, a) < 0 {
            assert forall|k: int| 0 <= k < s.len() implies s[k] != a by {
                if k < s.len() - 1 {
                    assert(s.drop_last()[k] == s[k]);
                    assert(s.drop_last().contains(s[k]));
                }
            }
        }
        assert forall|k: int| 0 <= k < index_in(s, a) implies s[k] != a by {
            if index_in(s.drop_last(), a) < 0 {
                assert(s.drop_last()[k] == s[k]);
                assert(s.drop_last().contains(s[k]));
            } else {
                assert(s.drop_last()[k] == s[k]);
            }
        }
    }
}

/// The angle whose rotation generates the rotation at `angle` by mirroring, in `mode`: for
/// one of the mode's angles, the angle in the mirrored slot (slot `i` of `n` mirrors to slot
/// `n - i`, so 45 mirrors to 315 and, among sixteen angles, 22 to 337); for another angle,
/// its reflection across the horizontal axis.
pub open spec fn mode_mirror(mode: RotationMode, angle: u16) -> u16 {
    let s = spec_angles(mode);
    let i = index_in(s, angle);
    if i >= 0 { s[(s.len() - i) % (s.len() as int)] } else { spec_mirror_angle(angle) }
}

impl RotationMode {
    pub fn angles(&self) -> (r: Vec<u16>)
        ensures
            r@ == spec_angles(*self),
    {
        let mut v: Vec<u16> = Vec::new();
        match self {
            RotationMode::Deg45 => {
                let mut i: u16 = 0;
                while i < 8
                    invariant
                        i <= 8,
                        v@ == Seq::new(i as nat, |k: int| (45 * k) as u16),
                    decreases 8 - i,
                {
                    v.push(45 * i);
                    i = i + 1;
                    assert(v@ =~= Seq::new(i as nat, |k: int| (45 * k) as u16));
                }
            },
            RotationMode::Deg22_5 => {
                let mut i: u16 = 0;
                while i < 16
                    invariant
                        i <= 16,
                        v@ == Seq::new(i as nat, |k: int| ((k * 225) / 10) as u16),
                    decreases 16 - i,
                {
                    v.push((i * 225) / 10);
                    i = i + 1;
                    assert(v@ =~= Seq::new(i as nat, |k: int| ((k * 225) / 10) as u16));
                }
            },
        }
        v
    }

    pub fn step(&self) -> (r: u16)
        ensures
            r == (match *self {
                RotationMode::Deg45 => 45u16,
                RotationMode::Deg22_5 => 22u16,
            }),
    {
        match self {
            RotationMode::Deg45 => 45,
            RotationMode::Deg22_5 => 22,
        }
    }

    /// The angle a rotation is generated from by mirroring: the mirrored slot for one of the
    /// mode's angles (45 mirrors to 315, 90 to 270, and among sixteen angles 22 to 337), the
    /// reflection across the horizontal axis otherwise; 0 and 180 mirror to themselves.
    pub fn mirror_angle(&self, angle: u16) -> (r: u16)
        requires
            angle <= 360,
        ensures
            r == mode_mirror(*self, angle),
    {
        let v = self.angles();
        let n = v.len();
        proof { lemma_index_in(v@, angle); }
        let mut i: usize = 0;
        while i < n
            invariant
                n == v.len(),
                v@ == spec_angles(*self),
                i <= n,
                forall|k: int| 0 <= k < i ==> v@[k] != angle,
            decreases n - i,
        {
            if v[i] == angle {
                proof {
                    lemma_index_in(v@, angle);
                    let f = index_in(v@, angle);
                    if f < 0 { assert(v@.contains(v@[i as int])); }
                    if f >= 0 && f < i { assert(v@[f] != angle); }
                    if f > i { assert(v@[i as int] != angle); }
                }
                return v[(n - i) % n];
            }
            i = i + 1;
        }
        proof {
            lemma_index_in(v@, angle);
            let f = index_in(v@, angle);
            if f >= 0 { assert(v@[f] != angle); }
        }
        if angle == 0 || angle == 180 {
            angle
        } else {
            360 - angle
        }
    }
}

/// One rotation variant of a state: the image for one angle.
#[derive(Debug)]
pub struct Rotation {
    pub angle: u16,
    /// Base64-encoded PNG data, or `None` when this rotation is to be generated by mirroring.
    pub image_data: Option<String>,
    /// Set at run time when the rotation was generated by mirroring.
    pub is_mirrored: bool,
}

impl Rotation {
    pub fn new(angle: u16) -> (r: Self)
        ensures
            r.angle == angle,
            r.image_data is None,
            !r.is_mirrored,
    {
        Rotation { angle, image_data: None, is_mirrored: false }
    }

    pub fn with_image(angle: u16, image_data: String) -> (r: Self)
        ensures
            r.angle == angle,
            r.image_data == Some(image_data),
            !r.is_mirrored,
    {
        Rotation { angle, image_data: Some(image_data), is_mirrored: false }
    }
}

/// Every entry of `m` occurs among the pairs that iterating over `m` yields, and every
/// such pair is an entry of `m`.
proof fn lemma_rotation_pairs_cover(m: &std::collections::HashMap<u16, Rotation>, s: Seq<(&u16, &Rotation)>)
    requires
        s == spec_hash_map_iter(m).remaining(),
    ensures
        forall|k: int| 0 <= k < s.len() ==> m@.contains_key(*(#[trigger] s[k]).0) && m@[*s[k].0] == *s[k].1,
        forall|a: u16| #[trigger] m@.contains_key(a) ==> exists|k: int| 0 <= k < s.len() && *(#[trigger] s[k]).0 == a,
        (exists|k: int| 0 <= k < s.len() && (#[trigger] s[k]).1.image_data is Some)
            == (exists|a: u16| #[trigger] m@.contains_key(a) && m@[a].image_data is Some),
{
    broadcast use vstd::std_specs::hash::group_hash_axioms;
    assert forall|a: u16| #[trigger] m@.contains_key(a) implies exists|k: int| 0 <= k < s.len() && *(#[trigger] s[k]).0 == a by {
        assert(s.contains((&a, &m@[a])));
        let k = choose|k: int| 0 <= k < s.len() && s[k] == (&a, &m@[a]);
        assert(*s[k].0 == a);
    }
    if exists|k: int| 0 <= k < s.len() && (#[trigger] s[k]).1.image_data is Some {
        let k = choose|k: int| 0 <= k < s.len() && (#[trigger] s[k]).1.image_data is Some;
        assert(m@.contains_key(*s[k].0));
    }
    if exists|a: u16| #[trigger] m@.contains_key(a) && m@[a].image_data is Some {
        let a = choose|a: u16| #[trigger] m@.contains_key(a) && m@[a].image_data is Some;
        let k = choose|k: int| 0 <= k < s.len() && *(#[trigger] s[k]).0 == a;
        assert(s[k].1.image_data is Some);
    }
}

/// Whether some entry of `r` is for angle `a`.
pub open spec fn has_angle(r: Seq<(u16, bool)>, a: u16) -> bool {
    exists|k: int| 0 <= k < r.len() && (#[trigger] r[k]).0 == a
}

/// The number of leading entries of `slots` whose angle is below `a`.
fn slot_position(slots: &Vec<(u16, bool)>, a: u16) -> (j: usize)
    ensures
        j <= slots@.len(),
        forall|k: int| 0 <= k < j ==> (#[trigger] slots@[k]).0 < a,
        j < slots@.len() ==> slots@[j as int].0 >= a,
{
    let mut j: usize = 0;
    while j < slots.len() && slots[j].0 < a
        invariant
            j <= slots@.len(),
            forall|k: int| 0 <= k < j ==> (#[trigger] slots@[k]).0 < a,
        decreases slots@.len() - j,
    {
        j = j + 1;
    }
    j
}

/// `r` lists the rotations of `m` by strictly increasing angle, every angle of `m` once, each
/// with whether its rotation holds an image.
pub open spec fn slots_of(m: Map<u16, Rotation>, r: Seq<(u16, bool)>) -> bool {
    &&& forall|i: int, j: int| 0 <= i < j < r.len() ==> r[i].0 < r[j].0
    &&& forall|k: int| 0 <= k < r.len() ==> m.contains_key((#[trigger] r[k]).0)
        && r[k].1 == (m[r[k].0].image_data is Some)
    &&& forall|a: u16| #[trigger] m.contains_key(a) ==> has_angle(r, a)
}

/// A visual variant of a part ("straight", "turned", "flap1", ...).
#[derive(Debug)]
pub struct State {
    pub name: String,
    pub rotation_mode: RotationMode,
    /// Angle to rotation data.
    pub rotations: std::collections::HashMap<u16, Rotation>,
}

/// The rotation `s` offers at `angle` (see `State::get_rotation`).
pub open spec fn rotation_at(s: State, angle: u16) -> Option<Rotation> {
    let m = s.rotations@;
    let ma = mode_mirror(s.rotation_mode, angle);
    let stored = m.contains_key(angle);
    let mirrored = angle <= 360 && ma != angle && m.contains_key(ma)
        && (!stored || m[ma].image_data is Some);
    if stored && m[angle].image_data is Some {
        Some(m[angle])
    } else if mirrored {
        Some(Rotation { angle, image_data: m[ma].image_data, is_mirrored: true })
    } else if stored {
        Some(m[angle])
    } else {
        None
    }
}

/// An empty rotation (no image) for `angle`.
pub open spec fn blank_rotation(angle: u16) -> Rotation {
    Rotation { angle, image_data: None, is_mirrored: false }
}

impl State {
    /// A state with one empty rotation for each angle of `rotation_mode`.
    pub fn new(name: &str, rotation_mode: RotationMode) -> (r: Self)
        ensures
            r.name@ == name@,
            r.rotation_mode == rotation_mode,
            forall|a: u16| #[trigger] r.rotations@.contains_key(a) <==> spec_angles(rotation_mode).contains(a),
            forall|a: u16| #[trigger] r.rotations@.contains_key(a) ==> r.rotations@[a] == blank_rotation(a),
    {
        broadcast use vstd::std_specs::hash::group_hash_axioms;
        let angles = rotation_mode.angles();
        let mut rotations: std::collections::HashMap<u16, Rotation> = std::collections::HashMap::new();
        let mut i: usize = 0;
        while i < angles.len()
            invariant
                i <= angles.len(),
                angles@ == spec_angles(rotation_mode),
                forall|a: u16| #[trigger] rotations@.contains_key(a) <==> angles@.take(i as int).contains(a),
                forall|a: u16| #[trigger] rotations@.contains_key(a) ==> rotations@[a] == blank_rotation(a),
            decreases angles.len() - i,
        {
            let a = angles[i];
            let ghost before = rotations@;
            rotations.insert(a, Rotation::new(a));
            assert(angles@.take(i as int + 1) =~= angles@.take(i as int).push(a));
            assert forall|b: u16| #[trigger] rotations@.contains_key(b) <==> angles@.take(i as int + 1).contains(b) by {
                if b == a {
                    assert(angles@.take(i as int + 1)[i as int] == a);
                } else {
                    if angles@.take(i as int + 1).contains(b) {
                        let j = choose|j: int| 0 <= j < i + 1 && #[trigger] angles@.take(i as int + 1)[j] == b;
                        assert(angles@.take(i as int)[j] == b);
                    }
                    if before.contains_key(b) {
                        let j = choose|j: int| 0 <= j < i && #[trigger] angles@.take(i as int)[j] == b;
                        assert(angles@.take(i as int + 1)[j] == b);
                    }
                }
            }
            i = i + 1;
        }
        assert(angles@.take(i as int) =~= angles@);
        State { name: name.to_owned(), rotation_mode, rotations }
    }

    /// The rotation at `angle`, generated from the mirrored angle when needed: a rotation with
    /// an image stored at `angle` comes as it is; otherwise, when the mirrored angle holds a
    /// rotation (one with an image, if `angle` has a stored entry), a copy of it at `angle`
    /// marked as mirrored; otherwise the entry stored at `angle`, if any.
    pub fn get_rotation(&self, angle: u16) -> (r: Option<Rotation>)
        ensures
            r == rotation_at(*self, angle),
    {
        broadcast use vstd::std_specs::hash::group_hash_axioms;
        let own = self.rotations.get(&angle);
        match own {
            Some(x) => {
                if x.image_data.is_some() {
                    return Some(x.clone());
                }
            },
            None => {},
        }
        if angle <= 360 {
            let ma = self.rotation_mode.mirror_angle(angle);
            if ma != angle {
                match self.rotations.get(&ma) {
                    Some(mr) => {
                        if own.is_none() || mr.image_data.is_some() {
                            let data = match &mr.image_data {
                                Some(d) => Some(d.clone()),
                                None => None,
                            };
                            return Some(Rotation { angle, image_data: data, is_mirrored: true });
                        }
                    },
                    None => {},
                }
            }
        }
        match own {
            Some(x) => Some(x.clone()),
            None => None,
        }
    }

    /// The rotations of this state by increasing angle, each with whether it holds an image.
    pub fn rotation_slots(&self) -> (r: Vec<(u16, bool)>)
        ensures
            slots_of(self.rotations@, r@),
    {
        broadcast use vstd::std_specs::hash::group_hash_axioms;
        let mut out: Vec<(u16, bool)> = Vec::new();
        for pair in it: self.rotations.iter()
            invariant
                it.seq() == spec_hash_map_iter(&self.rotations).remaining(),
                forall|i: int, j: int| 0 <= i < j < out@.len() ==> out@[i].0 < out@[j].0,
                forall|k: int| 0 <= k < out@.len() ==> self.rotations@.contains_key((#[trigger] out@[k]).0)
                    && out@[k].1 == (self.rotations@[out@[k].0].image_data is Some),
                forall|q: int| 0 <= q < it.index() ==> has_angle(out@, *(#[trigger] it.seq()[q]).0),
                it.index() == it.seq().len() ==> slots_of(self.rotations@, out@),
        {
            proof {
                lemma_rotation_pairs_cover(&self.rotations, it.seq());
            }
            let ghost idx = it.index();
            assert(pair == it.seq()[idx]);
            let (key, rot) = pair;
            let a: u16 = *key;
            let has = rot.image_data.is_some();
            let j = slot_position(&out, a);
            let ghost before = out@;
            if j < out.len() && out[j].0 == a {
                assert(out@[j as int].0 == a);
            } else {
                out.insert(j, (a, has));
                proof {
                    assert(out@[j as int] == (a, has));
                    assert forall|i: int, k: int| 0 <= i < k < out@.len() implies out@[i].0 < out@[k].0 by {
                        if k < j {
                            assert(out@[i] == before[i] && out@[k] == before[k]);
                        } else if k == j {
                            assert(out@[i] == before[i]);
                        } else if i < j {
                            assert(out@[i] == before[i] && out@[k] == before[k - 1]);
                            assert(before[k - 1].0 >= before[j as int].0 || k - 1 == j);
                        } else if i == j {
                            assert(out@[k] == before[k - 1]);
                            assert(before[j as int].0 >= a);
                            assert(before[k - 1].0 >= before[j as int].0);
                        } else {
                            assert(out@[i] == before[i - 1] && out@[k] == before[k - 1]);
                        }
                    }
                    assert forall|k: int| 0 <= k < out@.len() implies self.rotations@.contains_key((#[trigger] out@[k]).0)
                        && out@[k].1 == (self.rotations@[out@[k].0].image_data is Some) by {
                        if k < j {
                            assert(out@[k] == before[k]);
                        } else if k > j {
                            assert(out@[k] == before[k - 1]);
                        }
                    }
                    assert forall|q: int| 0 <= q < it.index() implies has_angle(out@, *(#[trigger] it.seq()[q]).0) by {
                        assert(has_angle(before, *it.seq()[q].0));
                        let k = choose|k: int| 0 <= k < before.len() && (#[trigger] before[k]).0 == *it.seq()[q].0;
                        if k < j {
                            assert(out@[k] == before[k]);
                        } else {
                            assert(out@[k + 1] == before[k]);
                        }
                    }
                }
            }
            assert(out@[j as int].0 == *it.seq()[idx].0);
            assert(has_angle(out@, *it.seq()[idx].0));
        }
        out
    }

    /// Whether some rotation of this state holds image data.
    pub fn has_images(&self) -> (r: bool)
        ensures
            r == exists|a: u16| #[trigger] self.rotations@.contains_key(a) && self.rotations@[a].image_data is Some,
    {
        broadcast use vstd::std_specs::hash::group_hash_axioms;
        let mut found = false;
        for pair in it: self.rotations.iter()
            invariant
                it.seq() == spec_hash_map_iter(&self.rotations).remaining(),
                found == exists|k: int| 0 <= k < it.index() && (#[trigger] it.seq()[k]).1.image_data is Some,
                it.index() == it.seq().len() ==> (found == exists|a: u16| #[trigger] self.rotations@.contains_key(a) && self.rotations@[a].image_data is Some),
        {
            let (_, r) = pair;
            if r.image_data.is_some() {
                found = true;
            }
            proof {
                lemma_rotation_pairs_cover(&self.rotations, it.seq());
            }
        }
        found
    }
}


/// Index of the first element of `names` equal to `name`, or `-1` when there is none.
pub open spec fn first_index_of(names: Seq<Seq<char>>, name: Seq<char>) -> int
    decreases names.len(),
{
    if names.len() == 0 {
        -1
    } else if names.last() == name && first_index_of(names.drop_last(), name) == -1 {
        names.len() - 1
    } else {
        first_index_of(names.drop_last(), name)
    }
}

/// `first_index_of` is the least index holding `name`, or `-1` when no index holds it.
pub proof fn lemma_first_index_of(names: Seq<Seq<char>>, name: Seq<char>)
    ensures
        -1 <= first_index_of(names, name) < names.len(),
        first_index_of(names, name) == -1 <==> !names.contains(name),
        first_index_of(names, name) >= 0 ==> names[first_index_of(names, name)] == name,
        forall|j: int| 0 <= j < first_index_of(names, name) ==> names[j] != name,
    decreases names.len(),
{
    if names.len() > 0 {
        lemma_first_index_of(names.drop_last(), name);
        let i = first_index_of(names.drop_last(), name);
        if names.contains(name) && i == -1 {
            let k = choose|k: int| 0 <= k < names.len() && names[k] == name;
            if k < names.len() - 1 {
                assert(names.drop_last()[k] == name);
            }
        }
        if names.drop_last().contains(name) {
            let k = choose|k: int| 0 <= k < names.len() - 1 && names.drop_last()[k] == name;
            assert(names[k] == name);
        }
        assert forall|j: int| 0 <= j < names.len() - 1 implies names.drop_last()[j] == names[j] by {}
    }
}

/// The first index holding `name` is the one before which no index holds it.
pub proof fn lemma_first_index_is(names: Seq<Seq<char>>, name: Seq<char>, i: int)
    requires
        0 <= i < names.len(),
        names[i] == name,
        forall|j: int| 0 <= j < i ==> names[j] != name,
    ensures
        first_index_of(names, name) == i,
{
    lemma_first_index_of(names, name);
    assert(names.contains(name));
    let f = first_index_of(names, name);
    if f < i {
        assert(names[f] != name);
    }
    if f > i {
        assert(names[i] != name);
    }
}

/// A part of a character ("head", "torso", "cape", ...).
#[derive(Debug)]
pub struct Part {
    pub name: String,
    pub states: Vec<State>,
    pub default_z: i32,
}

/// The names of `states`, in order.
pub open spec fn state_names(states: Seq<State>) -> Seq<Seq<char>> {
    states.map_values(|s: State| s.name@)
}

impl Part {
    /// A part with one state, "default", at 45-degree rotations.
    pub fn new(name: &str) -> (r: Self)
        ensures
            r.name@ == name@,
            r.states.len() == 1,
            r.states[0].name@ == "default"@,
            r.states[0].rotation_mode == RotationMode::Deg45,
            forall|a: u16| #[trigger] r.states[0].rotations@.contains_key(a) <==> spec_angles(RotationMode::Deg45).contains(a),
            forall|a: u16| #[trigger] r.states[0].rotations@.contains_key(a) ==> r.states[0].rotations@[a] == blank_rotation(a),
            r.default_z == 0,
    {
        let default_state = State::new("default", RotationMode::Deg45);
        Part { name: name.to_owned(), states: vec![default_state], default_z: 0 }
    }

    /// Index of the first state called `name`.
    pub fn state_index(&self, name: &str) -> (r: Option<usize>)
        ensures
            match r {
                Some(i) => i as int == first_index_of(state_names(self.states@), name@),
                None => first_index_of(state_names(self.states@), name@) == -1,
            },
    {
        proof { lemma_first_index_of(state_names(self.states@), name@); }
        let key = name.to_owned();
        let mut i: usize = 0;
        while i < self.states.len()
            invariant
                i <= self.states.len(),
                key@ == name@,
                forall|j: int| 0 <= j < i ==> self.states@[j].name@ != name@,
            decreases self.states.len() - i,
        {
            if self.states[i].name == key {
                assert(state_names(self.states@)[i as int] == name@);
                assert forall|j: int| 0 <= j < i implies state_names(self.states@)[j] != name@ by {
                    assert(state_names(self.states@)[j] == self.states@[j].name@);
                }
                proof { lemma_first_index_is(state_names(self.states@), name@, i as int); }
                return Some(i);
            }
            i = i + 1;
        }
        assert forall|j: int| 0 <= j < self.states.len() implies state_names(self.states@)[j] != name@ by {
            assert(state_names(self.states@)[j] == self.states@[j].name@);
        }
        None
    }

    /// The first state called `name`.
    pub fn get_state(&self, name: &str) -> (r: Option<&State>)
        ensures
            match r {
                Some(s) => {
                    let i = first_index_of(state_names(self.states@), name@);
                    0 <= i && *s == self.states@[i]
                },
                None => first_index_of(state_names(self.states@), name@) == -1,
            },
    {
        proof { lemma_first_index_of(state_names(self.states@), name@); }
        match self.state_index(name) {
            Some(i) => Some(&self.states[i]),
            None => None,
        }
    }

    /// The first state called `name`, for modification.
    pub fn get_state_mut(&mut self, name: &str) -> (r: Option<&mut State>)
        ensures
            first_index_of(state_names(old(self).states@), name@) == -1 ==> r is None && *final(self) == *old(self),
            first_index_of(state_names(old(self).states@), name@) >= 0 ==> r is Some,
            match r {
                Some(s) => {
                    let i = first_index_of(state_names(old(self).states@), name@);
                    &&& 0 <= i < old(self).states.len()
                    &&& *s == old(self).states@[i]
                    &&& final(self).states@ == old(self).states@.update(i, *final(s))
                    &&& final(self).name == old(self).name
                    &&& final(self).default_z == old(self).default_z
                },
                None => true,
            },
    {
        proof { lemma_first_index_of(state_names(self.states@), name@); }
        match self.state_index(name) {
            Some(i) => Some(&mut self.states[i]),
            None => None,
        }
    }

    pub fn add_state(&mut self, state: State)
        ensures
            final(self).states@ == old(self).states@.push(state),
            final(self).name == old(self).name,
            final(self).default_z == old(self).default_z,
    {
        self.states.push(state);
    }
}


/// Bit pattern (IEEE 754, single precision) of 0.0. Coordinates, scales and opacities
/// that the editor keeps as single-precision numbers are carried here by their bit patterns.
pub const BITS_ZERO: u32 = 0x0000_0000;

/// Bit pattern (IEEE 754, single precision) of 0.5.
pub const BITS_HALF: u32 = 0x3f00_0000;

/// Bit pattern (IEEE 754, single precision) of 1.0.
pub const BITS_ONE: u32 = 0x3f80_0000;

/// Bit pattern (IEEE 754, single precision) of 16.0.
pub const BITS_SIXTEEN: u32 = 0x4180_0000;

/// Canvas size used where a file gives none.
pub fn default_canvas_size() -> (r: (u32, u32))
    ensures
        r == (64u32, 64u32),
{
    (64, 64)
}

/// Layer visibility used where a file gives none.
pub fn default_visible() -> (r: bool)
    ensures
        r,
{
    true
}

/// Playback speed used where a file gives none.
pub fn default_fps() -> (r: u32)
    ensures
        r == 12,
{
    12
}

/// Flag value used where a file gives none.
pub fn default_true() -> (r: bool)
    ensures
        r,
{
    true
}

/// A placed instance of a part on the canvas of one frame.
#[derive(Debug)]
pub struct PlacedPart {
    /// Unique ID of this placement.
    pub id: u64,
    pub character_name: String,
    pub part_name: String,
    /// Display name of the layer; may differ from the part name.
    pub layer_name: String,
    pub state_name: String,
    /// Rotation angle in degrees.
    pub rotation: u16,
    /// Position on the canvas (x, y), as single-precision bit patterns.
    pub position_bits: (u32, u32),
    /// Frame-level z-index override.
    pub z_override: Option<i32>,
    pub visible: bool,
}

impl PlacedPart {
    /// A visible placement at the origin, unrotated, whose layer is named after the part.
    pub fn new(id: u64, character_name: &str, part_name: &str, state_name: &str) -> (r: Self)
        ensures
            r.id == id,
            r.character_name@ == character_name@,
            r.part_name@ == part_name@,
            r.layer_name@ == part_name@,
            r.state_name@ == state_name@,
            r.rotation == 0,
            r.position_bits == (BITS_ZERO, BITS_ZERO),
            r.z_override is None,
            r.visible,
    {
        PlacedPart {
            id,
            character_name: character_name.to_owned(),
            part_name: part_name.to_owned(),
            layer_name: part_name.to_owned(),
            state_name: state_name.to_owned(),
            rotation: 0,
            position_bits: (BITS_ZERO, BITS_ZERO),
            z_override: None,
            visible: true,
        }
    }

    /// The same placement with its layer renamed.
    pub fn with_layer_name(self, layer_name: &str) -> (r: Self)
        ensures
            r == (PlacedPart { layer_name: r.layer_name, ..self }),
            r.layer_name@ == layer_name@,
    {
        let mut p = self;
        p.layer_name = layer_name.to_owned();
        p
    }
}

/// Reference image of a single frame.
#[derive(Debug)]
pub struct FrameReference {
    /// Path of the image file.
    pub file_path: String,
    /// Canvas-relative position, as single-precision bit patterns.
    pub position_bits: (u32, u32),
    /// Scale factor (1.0 fits the canvas), as a single-precision bit pattern.
    pub scale_bits: u32,
}

impl FrameReference {
    pub fn new(file_path: String, scale_bits: u32) -> (r: Self)
        ensures
            r.file_path == file_path,
            r.position_bits == (BITS_ZERO, BITS_ZERO),
            r.scale_bits == scale_bits,
    {
        FrameReference { file_path, position_bits: (BITS_ZERO, BITS_ZERO), scale_bits }
    }
}

/// A single frame of an animation.
#[derive(Debug)]
pub struct Frame {
    pub duration_ms: u32,
    /// Layers, bottom first.
    pub placed_parts: Vec<PlacedPart>,
    /// Frame-level z-index overrides (part name to z-index).
    pub z_overrides: std::collections::HashMap<String, i32>,
    /// Optional reference image.
    pub reference: Option<FrameReference>,
}

impl Frame {
    pub fn new(duration_ms: u32) -> (r: Self)
        ensures
            r.duration_ms == duration_ms,
            r.placed_parts@.len() == 0,
            r.z_overrides@ == Map::<String, i32>::empty(),
            r.reference is None,
    {
        Frame {
            duration_ms,
            placed_parts: Vec::new(),
            z_overrides: std::collections::HashMap::new(),
            reference: None,
        }
    }
}

/// An empty frame of 100 ms, the kind new animations start with.
pub open spec fn is_blank_frame(f: Frame) -> bool {
    &&& f.duration_ms == 100
    &&& f.placed_parts@.len() == 0
    &&& f.z_overrides@ == Map::<String, i32>::empty()
    &&& f.reference is None
}

/// A sequence of frames.
#[derive(Debug)]
pub struct Animation {
    pub name: String,
    pub frames: Vec<Frame>,
    /// Animation-level z-index overrides (part name to z-index).
    pub z_overrides: std::collections::HashMap<String, i32>,
    /// Playback speed in frames per second.
    pub fps: u32,
}

impl Animation {
    /// An animation of one blank frame at 12 frames per second.
    pub fn new(name: &str) -> (r: Self)
        ensures
            r.name@ == name@,
            r.frames.len() == 1,
            is_blank_frame(r.frames[0]),
            r.z_overrides@ == Map::<String, i32>::empty(),
            r.fps == 12,
    {
        Animation {
            name: name.to_owned(),
            frames: vec![Frame::new(100)],
            z_overrides: std::collections::HashMap::new(),
            fps: 12,
        }
    }

    /// Appends a blank frame.
    pub fn add_frame(&mut self)
        ensures
            final(self).frames.len() == old(self).frames.len() + 1,
            final(self).frames@.take(old(self).frames.len() as int) == old(self).frames@,
            is_blank_frame(final(self).frames@.last()),
            final(self).name == old(self).name,
            final(self).z_overrides == old(self).z_overrides,
            final(self).fps == old(self).fps,
    {
        self.frames.push(Frame::new(100));
    }

    pub fn get_frame(&self, index: usize) -> (r: Option<&Frame>)
        ensures
            match r {
                Some(f) => index < self.frames.len() && *f == self.frames@[index as int],
                None => index >= self.frames.len(),
            },
    {
        if index < self.frames.len() {
            Some(&self.frames[index])
        } else {
            None
        }
    }

    pub fn get_frame_mut(&mut self, index: usize) -> (r: Option<&mut Frame>)
        ensures
            index >= old(self).frames.len() ==> r is None && *final(self) == *old(self),
            index < old(self).frames.len() ==> r is Some,
            match r {
                Some(f) => {
                    &&& index < old(self).frames.len()
                    &&& *f == old(self).frames@[index as int]
                    &&& final(self).frames@ == old(self).frames@.update(index as int, *final(f))
                    &&& final(self).name == old(self).name
                    &&& final(self).z_overrides == old(self).z_overrides
                    &&& final(self).fps == old(self).fps
                },
                None => true,
            },
    {
        if index < self.frames.len() {
            Some(&mut self.frames[index])
        } else {
            None
        }
    }
}


impl Clone for Rotation {
    fn clone(&self) -> (r: Self)
        ensures
            r == *self,
    {
        Rotation { angle: self.angle, image_data: self.image_data.clone(), is_mirrored: self.is_mirrored }
    }
}

/// `b` holds what `a` holds (the hash maps by their contents).
pub open spec fn state_equiv(a: State, b: State) -> bool {
    &&& a.name == b.name
    &&& a.rotation_mode == b.rotation_mode
    &&& a.rotations@ == b.rotations@
}

impl Clone for State {
    fn clone(&self) -> (r: Self)
        ensures
            state_equiv(*self, r),
    {
        State { name: self.name.clone(), rotation_mode: self.rotation_mode, rotations: self.rotations.clone() }
    }
}

/// `b` holds what `a` holds (the hash maps by their contents).
pub open spec fn part_equiv(a: Part, b: Part) -> bool {
    &&& a.name == b.name
    &&& a.default_z == b.default_z
    &&& a.states.len() == b.states.len()
    &&& forall|i: int| 0 <= i < a.states.len() ==> state_equiv(#[trigger] a.states@[i], b.states@[i])
}

impl Clone for Part {
    fn clone(&self) -> (r: Self)
        ensures
            part_equiv(*self, r),
    {
        let mut states: Vec<State> = Vec::new();
        let mut i: usize = 0;
        while i < self.states.len()
            invariant
                i <= self.states.len(),
                states.len() == i,
                forall|j: int| 0 <= j < i ==> state_equiv(#[trigger] self.states@[j], states@[j]),
            decreases self.states.len() - i,
        {
            states.push(self.states[i].clone());
            i = i + 1;
        }
        Part { name: self.name.clone(), states, default_z: self.default_z }
    }
}

impl Clone for PlacedPart {
    fn clone(&self) -> (r: Self)
        ensures
            r == *self,
    {
        PlacedPart {
            id: self.id,
            character_name: self.character_name.clone(),
            part_name: self.part_name.clone(),
            layer_name: self.layer_name.clone(),
            state_name: self.state_name.clone(),
            rotation: self.rotation,
            position_bits: self.position_bits,
            z_override: self.z_override,
            visible: self.visible,
        }
    }
}

impl Clone for FrameReference {
    fn clone(&self) -> (r: Self)
        ensures
            r == *self,
    {
        FrameReference { file_path: self.file_path.clone(), position_bits: self.position_bits, scale_bits: self.scale_bits }
    }
}

/// Copies `v` element by element.
fn clone_placed_parts(v: &Vec<PlacedPart>) -> (r: Vec<PlacedPart>)
    ensures
        r@ == v@,
{
    let mut out: Vec<PlacedPart> = Vec::new();
    let mut i: usize = 0;
    while i < v.len()
        invariant
            i <= v.len(),
            out@ == v@.take(i as int),
        decreases v.len() - i,
    {
        out.push(v[i].clone());
        i = i + 1;
        assert(out@ =~= v@.take(i as int));
    }
    assert(v@.take(i as int) =~= v@);
    out
}

/// `b` holds what `a` holds (the hash maps by their contents).
pub open spec fn frame_equiv(a: Frame, b: Frame) -> bool {
    &&& a.duration_ms == b.duration_ms
    &&& a.placed_parts@ == b.placed_parts@
    &&& a.z_overrides@ == b.z_overrides@
    &&& a.reference == b.reference
}

impl Clone for Frame {
    fn clone(&self) -> (r: Self)
        ensures
            frame_equiv(*self, r),
    {
        let reference = match &self.reference {
            Some(x) => Some(x.clone()),
            None => None,
        };
        Frame {
            duration_ms: self.duration_ms,
            placed_parts: clone_placed_parts(&self.placed_parts),
            z_overrides: self.z_overrides.clone(),
            reference,
        }
    }
}

/// `b` holds what `a` holds (the hash maps by their contents).
pub open spec fn animation_equiv(a: Animation, b: Animation) -> bool {
    &&& a.name == b.name
    &&& a.fps == b.fps
    &&& a.z_overrides@ == b.z_overrides@
    &&& a.frames.len() == b.frames.len()
    &&& forall|i: int| 0 <= i < a.frames.len() ==> frame_equiv(#[trigger] a.frames@[i], b.frames@[i])
}

impl Clone for Animation {
    fn clone(&self) -> (r: Self)
        ensures
            animation_equiv(*self, r),
    {
        let mut frames: Vec<Frame> = Vec::new();
        let mut i: usize = 0;
        while i < self.frames.len()
            invariant
                i <= self.frames.len(),
                frames.len() == i,
                forall|j: int| 0 <= j < i ==> frame_equiv(#[trigger] self.frames@[j], frames@[j]),
            decreases self.frames.len() - i,
        {
            frames.push(self.frames[i].clone());
            i = i + 1;
        }
        Animation { name: self.name.clone(), frames, z_overrides: self.z_overrides.clone(), fps: self.fps }
    }
}


/// A character: a collection of parts that form a complete sprite, and its animations.
#[derive(Debug)]
pub struct Character {
    pub name: String,
    pub parts: Vec<Part>,
    pub animations: Vec<Animation>,
    /// Canvas width and height in pixels.
    pub canvas_size: (u32, u32),
}

/// The names of `parts`, in order.
pub open spec fn part_names(parts: Seq<Part>) -> Seq<Seq<char>> {
    parts.map_values(|p: Part| p.name@)
}

/// The names of `animations`, in order.
pub open spec fn animation_names(animations: Seq<Animation>) -> Seq<Seq<char>> {
    animations.map_values(|a: Animation| a.name@)
}

/// The name of the animation every new character starts with.
pub open spec fn untitled_animation_name() -> Seq<char> {
    "Untitled Animation"@
}

impl Character {
    /// A character without parts, with one untitled animation and a 64x64 canvas.
    pub fn new(name: &str) -> (r: Self)
        ensures
            r.name@ == name@,
            r.parts@.len() == 0,
            r.animations.len() == 1,
            r.animations[0].name@ == untitled_animation_name(),
            r.animations[0].frames.len() == 1,
            is_blank_frame(r.animations[0].frames[0]),
            r.animations[0].z_overrides@ == Map::<String, i32>::empty(),
            r.animations[0].fps == 12,
            r.canvas_size == (64u32, 64u32),
    {
        proof { reveal_strlit("Untitled Animation"); }
        Character {
            name: name.to_owned(),
            parts: Vec::new(),
            animations: vec![Animation::new("Untitled Animation")],
            canvas_size: (64, 64),
        }
    }

    /// Index of the first part called `name`.
    pub fn part_index(&self, name: &str) -> (r: Option<usize>)
        ensures
            match r {
                Some(i) => i as int == first_index_of(part_names(self.parts@), name@),
                None => first_index_of(part_names(self.parts@), name@) == -1,
            },
    {
        proof { lemma_first_index_of(part_names(self.parts@), name@); }
        let key = name.to_owned();
        let mut i: usize = 0;
        while i < self.parts.len()
            invariant
                i <= self.parts.len(),
                key@ == name@,
                forall|j: int| 0 <= j < i ==> self.parts@[j].name@ != name@,
            decreases self.parts.len() - i,
        {
            if self.parts[i].name == key {
                assert(part_names(self.parts@)[i as int] == name@);
                assert forall|j: int| 0 <= j < i implies part_names(self.parts@)[j] != name@ by {
                    assert(part_names(self.parts@)[j] == self.parts@[j].name@);
                }
                proof { lemma_first_index_is(part_names(self.parts@), name@, i as int); }
                return Some(i);
            }
            i = i + 1;
        }
        assert forall|j: int| 0 <= j < self.parts.len() implies part_names(self.parts@)[j] != name@ by {
            assert(part_names(self.parts@)[j] == self.parts@[j].name@);
        }
        None
    }

    /// The first part called `name`.
    pub fn get_part(&self, name: &str) -> (r: Option<&Part>)
        ensures
            match r {
                Some(x) => {
                    let i = first_index_of(part_names(self.parts@), name@);
                    0 <= i && *x == self.parts@[i]
                },
                None => first_index_of(part_names(self.parts@), name@) == -1,
            },
    {
        proof { lemma_first_index_of(part_names(self.parts@), name@); }
        match self.part_index(name) {
            Some(i) => Some(&self.parts[i]),
            None => None,
        }
    }

    /// The first part called `name`, for modification.
    pub fn get_part_mut(&mut self, name: &str) -> (r: Option<&mut Part>)
        ensures
            first_index_of(part_names(old(self).parts@), name@) == -1 ==> r is None && *final(self) == *old(self),
            first_index_of(part_names(old(self).parts@), name@) >= 0 ==> r is Some,
            match r {
                Some(x) => {
                    let i = first_index_of(part_names(old(self).parts@), name@);
                    &&& 0 <= i < old(self).parts.len()
                    &&& *x == old(self).parts@[i]
                    &&& final(self).parts@ == old(self).parts@.update(i, *final(x))
                    &&& final(self).name == old(self).name
                    &&& final(self).animations == old(self).animations
                    &&& final(self).canvas_size == old(self).canvas_size
                },
                None => true,
            },
    {
        proof { lemma_first_index_of(part_names(self.parts@), name@); }
        match self.part_index(name) {
            Some(i) => Some(&mut self.parts[i]),
            None => None,
        }
    }

    pub fn add_part(&mut self, part: Part)
        ensures
            final(self).parts@ == old(self).parts@.push(part),
            final(self).name == old(self).name,
            final(self).animations == old(self).animations,
            final(self).canvas_size == old(self).canvas_size,
    {
        self.parts.push(part);
    }

    /// Index of the first animation called `name`.
    pub fn animation_index(&self, name: &str) -> (r: Option<usize>)
        ensures
            match r {
                Some(i) => i as int == first_index_of(animation_names(self.animations@), name@),
                None => first_index_of(animation_names(self.animations@), name@) == -1,
            },
    {
        proof { lemma_first_index_of(animation_names(self.animations@), name@); }
        let key = name.to_owned();
        let mut i: usize = 0;
        while i < self.animations.len()
            invariant
                i <= self.animations.len(),
                key@ == name@,
                forall|j: int| 0 <= j < i ==> self.animations@[j].name@ != name@,
            decreases self.animations.len() - i,
        {
            if self.animations[i].name == key {
                assert(animation_names(self.animations@)[i as int] == name@);
                assert forall|j: int| 0 <= j < i implies animation_names(self.animations@)[j] != name@ by {
                    assert(animation_names(self.animations@)[j] == self.animations@[j].name@);
                }
                proof { lemma_first_index_is(animation_names(self.animations@), name@, i as int); }
                return Some(i);
            }
            i = i + 1;
        }
        assert forall|j: int| 0 <= j < self.animations.len() implies animation_names(self.animations@)[j] != name@ by {
            assert(animation_names(self.animations@)[j] == self.animations@[j].name@);
        }
        None
    }

    /// The first animation called `name`.
    pub fn get_animation(&self, name: &str) -> (r: Option<&Animation>)
        ensures
            match r {
                Some(x) => {
                    let i = first_index_of(animation_names(self.animations@), name@);
                    0 <= i && *x == self.animations@[i]
                },
                None => first_index_of(animation_names(self.animations@), name@) == -1,
            },
    {
        proof { lemma_first_index_of(animation_names(self.animations@), name@); }
        match self.animation_index(name) {
            Some(i) => Some(&self.animations[i]),
            None => None,
        }
    }

    /// The first animation called `name`, for modification.
    pub fn get_animation_mut(&mut self, name: &str) -> (r: Option<&mut Animation>)
        ensures
            first_index_of(animation_names(old(self).animations@), name@) == -1 ==> r is None && *final(self) == *old(self),
            first_index_of(animation_names(old(self).animations@), name@) >= 0 ==> r is Some,
            match r {
                Some(x) => {
                    let i = first_index_of(animation_names(old(self).animations@), name@);
                    &&& 0 <= i < old(self).animations.len()
                    &&& *x == old(self).animations@[i]
                    &&& final(self).animations@ == old(self).animations@.update(i, *final(x))
                    &&& final(self).name == old(self).name
                    &&& final(self).parts == old(self).parts
                    &&& final(self).canvas_size == old(self).canvas_size
                },
                None => true,
            },
    {
        proof { lemma_first_index_of(animation_names(self.animations@), name@); }
        match self.animation_index(name) {
            Some(i) => Some(&mut self.animations[i]),
            None => None,
        }
    }

    pub fn add_animation(&mut self, animation: Animation)
        ensures
            final(self).animations@ == old(self).animations@.push(animation),
            final(self).name == old(self).name,
            final(self).parts == old(self).parts,
            final(self).canvas_size == old(self).canvas_size,
    {
        self.animations.push(animation);
    }
}

/// `b` holds what `a` holds (the hash maps by their contents).
pub open spec fn character_equiv(a: Character, b: Character) -> bool {
    &&& a.name == b.name
    &&& a.canvas_size == b.canvas_size
    &&& a.parts.len() == b.parts.len()
    &&& forall|i: int| 0 <= i < a.parts.len() ==> part_equiv(#[trigger] a.parts@[i], b.parts@[i])
    &&& a.animations.len() == b.animations.len()
    &&& forall|i: int| 0 <= i < a.animations.len() ==> animation_equiv(#[trigger] a.animations@[i], b.animations@[i])
}

impl Clone for Character {
    fn clone(&self) -> (r: Self)
        ensures
            character_equiv(*self, r),
    {
        let mut parts: Vec<Part> = Vec::new();
        let mut i: usize = 0;
        while i < self.parts.len()
            invariant
                i <= self.parts.len(),
                parts.len() == i,
                forall|j: int| 0 <= j < i ==> part_equiv(#[trigger] self.parts@[j], parts@[j]),
            decreases self.parts.len() - i,
        {
            parts.push(self.parts[i].clone());
            i = i + 1;
        }
        let mut animations: Vec<Animation> = Vec::new();
        let mut k: usize = 0;
        while k < self.animations.len()
            invariant
                k <= self.animations.len(),
                animations.len() == k,
                forall|j: int| 0 <= j < k ==> animation_equiv(#[trigger] self.animations@[j], animations@[j]),
            decreases self.animations.len() - k,
        {
            animations.push(self.animations[k].clone());
            k = k + 1;
        }
        Character { name: self.name.clone(), parts, animations, canvas_size: self.canvas_size }
    }
}

} // verus!
