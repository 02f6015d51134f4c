//! What the tracker keeps per save: a map from a save's profile key to a
//! value, and the per-save settings and drawings of the save that is
//! loaded.

use crate::annotations::{
    annotation_views, duplicate_annotations, duplicate_copies, duplicate_strokes,
    duplicate_texts, stroke_views, text_views, AnnotationModel, MapAnnotation, MapArrow,
    MapCircle, MapRectangle, MapStroke, MapText, WorldPoint,
};
use crate::map::string_views;
use crate::storage::{allocation_profile_key, no_save_profile_key};
use crate::strings::{ascii_lower_seq, str_eq};
use vstd::prelude::*;

verus! {

/// A map from profile keys to values, as a list of entries with distinct
/// keys.
pub struct ProfileMap<T> {
    entries: Vec<(String, T)>,
}

/// Whether some entry of `entries` has the key `k`.
pub open spec fn has_key<T>(entries: Seq<(String, T)>, k: Seq<char>) -> bool {
    exists|i: int| 0 <= i < entries.len() && (#[trigger] entries[i]).0@ == k
}

/// No two entries of `entries` have the same key.
pub open spec fn keys_distinct<T>(entries: Seq<(String, T)>) -> bool {
    forall|i: int, j: int|
        0 <= i < entries.len() && 0 <= j < entries.len() && i != j ==> (#[trigger] entries[i]).0@
            != (#[trigger] entries[j]).0@
}

/// The map that the entries hold.
pub open spec fn entries_map<T>(entries: Seq<(String, T)>) -> Map<Seq<char>, T> {
    Map::new(
        |k: Seq<char>| has_key(entries, k),
        |k: Seq<char>|
            entries[choose|i: int| 0 <= i < entries.len() && (#[trigger] entries[i]).0@ == k].1,
    )
}

/// With distinct keys, the entry with a key is the map's value there.
pub proof fn lemma_entry_in_map<T>(entries: Seq<(String, T)>, i: int)
    requires
        keys_distinct(entries),
        0 <= i < entries.len(),
    ensures
        entries_map(entries).contains_key(entries[i].0@),
        entries_map(entries)[entries[i].0@] == entries[i].1,
{
    let k = entries[i].0@;
    assert(has_key(entries, k));
    let c = choose|j: int| 0 <= j < entries.len() && (#[trigger] entries[j]).0@ == k;
    assert(0 <= c < entries.len() && entries[c].0@ == k);
    if c != i {
        assert(entries[c].0@ != entries[i].0@);
    }
}

impl<T> View for ProfileMap<T> {
    type V = Map<Seq<char>, T>;

    closed spec fn view(&self) -> Map<Seq<char>, T> {
        entries_map(self.entries@)
    }
}

impl<T> ProfileMap<T> {
    #[verifier::type_invariant]
    spec fn well_formed(self) -> bool {
        keys_distinct(self.entries@)
    }

    /// An empty map.
    pub fn new() -> (r: ProfileMap<T>)
        ensures
            r@ == Map::<Seq<char>, T>::empty(),
    {
        let r = ProfileMap { entries: Vec::new() };
        assert(r@ =~= Map::<Seq<char>, T>::empty());
        r
    }

    fn find(&self, key: &str) -> (r: Option<usize>)
        ensures
            match r {
                Some(i) => i < self.entries@.len() && self.entries@[i as int].0@ == key@,
                None => !has_key(self.entries@, key@),
            },
    {
        let mut i: usize = 0;
        while i < self.entries.len()
            invariant
                i <= self.entries@.len(),
                forall|j: int| 0 <= j < i ==> (#[trigger] self.entries@[j]).0@ != key@,
            decreases self.entries@.len() - i,
        {
            if str_eq(self.entries[i].0.as_str(), key) {
                return Some(i);
            }
            i = i + 1;
        }
        None
    }

    /// The value stored under `key`.
    pub fn get(&self, key: &str) -> (r: Option<&T>)
        ensures
            match r {
                Some(v) => self@.contains_key(key@) && *v == self@[key@],
                None => !self@.contains_key(key@),
            },
    {
        proof {
            use_type_invariant(self);
        }
        match self.find(key) {
            Some(i) => {
                proof {
                    lemma_entry_in_map(self.entries@, i as int);
                }
                Some(&self.entries[i].1)
            },
            None => None,
        }
    }

    /// Stores `value` under `key`, in place of what was there.
    pub fn insert(&mut self, key: String, value: T)
        ensures
            final(self)@ == old(self)@.insert(key@, value),
    {
        proof {
            use_type_invariant(&*self);
        }
        let ghost old_entries = self.entries@;
        let ghost k = key@;
        let found = self.find(key.as_str());
        let mut entries: Vec<(String, T)> = Vec::new();
        std::mem::swap(&mut entries, &mut self.entries);
        match found {
            Some(i) => {
                entries.set(i, (key, value));
                proof {
                    let e = entries@;
                    assert(e == old_entries.update(i as int, e[i as int]));
                    assert(keys_distinct(e)) by {
                        assert forall|a: int, b: int|
                            0 <= a < e.len() && 0 <= b < e.len() && a != b implies (
                            #[trigger] e[a]).0@ != (#[trigger] e[b]).0@ by {
                            if a == i {
                                assert(old_entries[b].0@ != old_entries[i as int].0@);
                            } else if b == i {
                                assert(old_entries[a].0@ != old_entries[i as int].0@);
                            } else {
                                assert(old_entries[a].0@ != old_entries[b].0@);
                            }
                        }
                    }
                    assert forall|q: Seq<char>| #[trigger]
                        entries_map(e).contains_key(q) == entries_map(old_entries).insert(
                            k,
                            value,
                        ).contains_key(q) by {
                        if has_key(old_entries, q) {
                            let j = choose|j: int|
                                0 <= j < old_entries.len() && (#[trigger] old_entries[j]).0@ == q;
                            if j == i {
                                assert(e[j].0@ == q);
                            } else {
                                assert(e[j] == old_entries[j]);
                            }
                        }
                        if has_key(e, q) {
                            let j = choose|j: int| 0 <= j < e.len() && (#[trigger] e[j]).0@ == q;
                            if j != i {
                                assert(old_entries[j] == e[j]);
                            }
                        }
                    }
                    assert forall|q: Seq<char>| #[trigger]
                        entries_map(e).contains_key(q) implies entries_map(e)[q] == entries_map(
                        old_entries,
                    ).insert(k, value)[q] by {
                        let j = choose|j: int| 0 <= j < e.len() && (#[trigger] e[j]).0@ == q;
                        lemma_entry_in_map(e, j);
                        if j != i {
                            assert(old_entries[j] == e[j]);
                            lemma_entry_in_map(old_entries, j);
                        }
                    }
                    assert(entries_map(e) =~= entries_map(old_entries).insert(k, value));
                }
            },
            None => {
                entries.push((key, value));
                proof {
                    let e = entries@;
                    let n = old_entries.len() as int;
                    assert(e == old_entries.push(e[n]));
                    assert(keys_distinct(e)) by {
                        assert forall|a: int, b: int|
                            0 <= a < e.len() && 0 <= b < e.len() && a != b implies (
                            #[trigger] e[a]).0@ != (#[trigger] e[b]).0@ by {
                            if a == n {
                                assert(e[b] == old_entries[b]);
                            } else if b == n {
                                assert(e[a] == old_entries[a]);
                            } else {
                                assert(old_entries[a].0@ != old_entries[b].0@);
                            }
                        }
                    }
                    assert forall|q: Seq<char>| #[trigger]
                        entries_map(e).contains_key(q) == entries_map(old_entries).insert(
                            k,
                            value,
                        ).contains_key(q) by {
                        if has_key(old_entries, q) {
                            let j = choose|j: int|
                                0 <= j < old_entries.len() && (#[trigger] old_entries[j]).0@ == q;
                            assert(e[j] == old_entries[j]);
                        }
                        if q == k {
                            assert(e[n].0@ == q);
                        }
                        if has_key(e, q) {
                            let j = choose|j: int| 0 <= j < e.len() && (#[trigger] e[j]).0@ == q;
                            if j != n {
                                assert(old_entries[j] == e[j]);
                            }
                        }
                    }
                    assert forall|q: Seq<char>| #[trigger]
                        entries_map(e).contains_key(q) implies entries_map(e)[q] == entries_map(
                        old_entries,
                    ).insert(k, value)[q] by {
                        let j = choose|j: int| 0 <= j < e.len() && (#[trigger] e[j]).0@ == q;
                        lemma_entry_in_map(e, j);
                        if j != n {
                            assert(old_entries[j] == e[j]);
                            lemma_entry_in_map(old_entries, j);
                        }
                    }
                    assert(entries_map(e) =~= entries_map(old_entries).insert(k, value));
                }
            },
        }
        self.entries = entries;
    }

    /// Removes every entry.
    pub fn clear(&mut self)
        ensures
            final(self)@ == Map::<Seq<char>, T>::empty(),
    {
        self.entries = Vec::new();
        assert(self@ =~= Map::<Seq<char>, T>::empty());
    }

    /// The entries, each key once; together they are the map.
    pub fn entries(&self) -> (r: &Vec<(String, T)>)
        ensures
            keys_distinct(r@),
            entries_map(r@) == self@,
    {
        proof {
            use_type_invariant(self);
        }
        &self.entries
    }
}

/// A copy of a list of strings.
pub fn duplicate_strings(v: &Vec<String>) -> (r: Vec<String>)
    ensures
        string_views(r@) == string_views(v@),
{
    let ghost o = string_views(v@);
    let mut r: Vec<String> = Vec::new();
    let mut i: usize = 0;
    while i < v.len()
        invariant
            i <= v@.len(),
            o == string_views(v@),
            string_views(r@) == o.take(i as int),
        decreases v@.len() - i,
    {
        let ghost before = string_views(r@);
        r.push(v[i].clone());
        assert(string_views(r@) =~= before.push(v@[i as int]@));
        i = i + 1;
        assert(o.take(i as int) =~= o.take(i - 1).push(v@[i - 1]@));
    }
    assert(o.take(i as int) =~= o);
    r
}

/// The per-save settings and drawings, and the save that is loaded.
pub struct SaveProfiles {
    pub source_path: Option<String>,
    pub miner_tiers: ProfileMap<u8>,
    pub resource_orders: ProfileMap<Vec<String>>,
    pub rectangles: ProfileMap<Vec<MapRectangle>>,
    pub circles: ProfileMap<Vec<MapCircle>>,
    pub arrows: ProfileMap<Vec<MapArrow>>,
    pub texts: ProfileMap<Vec<MapText>>,
    pub strokes: ProfileMap<Vec<MapStroke>>,
    pub histories: ProfileMap<Vec<MapAnnotation>>,
}

pub ghost struct SaveProfilesModel {
    pub source_path: Option<Seq<char>>,
    pub miner_tiers: Map<Seq<char>, u8>,
    pub resource_orders: Map<Seq<char>, Seq<Seq<char>>>,
    pub rectangles: Map<Seq<char>, Seq<MapRectangle>>,
    pub circles: Map<Seq<char>, Seq<MapCircle>>,
    pub arrows: Map<Seq<char>, Seq<MapArrow>>,
    pub texts: Map<Seq<char>, Seq<(u32, u32, Seq<char>)>>,
    pub strokes: Map<Seq<char>, Seq<Seq<WorldPoint>>>,
    pub histories: Map<Seq<char>, Seq<AnnotationModel>>,
}

impl View for SaveProfiles {
    type V = SaveProfilesModel;

    open spec fn view(&self) -> SaveProfilesModel {
        SaveProfilesModel {
            source_path: match self.source_path {
                Some(p) => Some(p@),
                None => None,
            },
            miner_tiers: self.miner_tiers@,
            resource_orders: self.resource_orders@.map_values(|v: Vec<String>| string_views(v@)),
            rectangles: self.rectangles@.map_values(|v: Vec<MapRectangle>| v@),
            circles: self.circles@.map_values(|v: Vec<MapCircle>| v@),
            arrows: self.arrows@.map_values(|v: Vec<MapArrow>| v@),
            texts: self.texts@.map_values(|v: Vec<MapText>| text_views(v@)),
            strokes: self.strokes@.map_values(|v: Vec<MapStroke>| stroke_views(v@)),
            histories: self.histories@.map_values(|v: Vec<MapAnnotation>| annotation_views(v@)),
        }
    }
}

/// The key of the save that is loaded: its path in ASCII lower case, or
/// the key used while no save is loaded.
pub open spec fn active_key(m: SaveProfilesModel) -> Seq<char> {
    match m.source_path {
        Some(p) => ascii_lower_seq(p),
        None => "__no_save__"@,
    }
}

/// What is stored under `k`, or `d` when nothing is.
pub open spec fn stored_or<V>(m: Map<Seq<char>, V>, k: Seq<char>, d: V) -> V {
    if m.contains_key(k) {
        m[k]
    } else {
        d
    }
}

pub open spec fn clamp_tier(t: u8) -> u8 {
    if t < 1 {
        1
    } else if t > 3 {
        3
    } else {
        t
    }
}

/// The miner tier of the loaded save: what was stored (3 when nothing
/// was), clamped to one to three.
pub open spec fn tier_read(m: SaveProfilesModel) -> u8 {
    clamp_tier(stored_or(m.miner_tiers, active_key(m), 3))
}

/// The models after storing each kind of value for the loaded save.
pub open spec fn tier_saved(m: SaveProfilesModel, t: u8) -> SaveProfilesModel {
    SaveProfilesModel { miner_tiers: m.miner_tiers.insert(active_key(m), clamp_tier(t)), ..m }
}

pub open spec fn order_saved(m: SaveProfilesModel, o: Seq<Seq<char>>) -> SaveProfilesModel {
    SaveProfilesModel { resource_orders: m.resource_orders.insert(active_key(m), o), ..m }
}

pub open spec fn rectangles_saved(m: SaveProfilesModel, v: Seq<MapRectangle>) -> SaveProfilesModel {
    SaveProfilesModel { rectangles: m.rectangles.insert(active_key(m), v), ..m }
}

pub open spec fn circles_saved(m: SaveProfilesModel, v: Seq<MapCircle>) -> SaveProfilesModel {
    SaveProfilesModel { circles: m.circles.insert(active_key(m), v), ..m }
}

pub open spec fn arrows_saved(m: SaveProfilesModel, v: Seq<MapArrow>) -> SaveProfilesModel {
    SaveProfilesModel { arrows: m.arrows.insert(active_key(m), v), ..m }
}

pub open spec fn texts_saved(m: SaveProfilesModel, v: Seq<(u32, u32, Seq<char>)>) -> SaveProfilesModel {
    SaveProfilesModel { texts: m.texts.insert(active_key(m), v), ..m }
}

pub open spec fn strokes_saved(m: SaveProfilesModel, v: Seq<Seq<WorldPoint>>) -> SaveProfilesModel {
    SaveProfilesModel { strokes: m.strokes.insert(active_key(m), v), ..m }
}

pub open spec fn history_saved(m: SaveProfilesModel, v: Seq<AnnotationModel>) -> SaveProfilesModel {
    SaveProfilesModel { histories: m.histories.insert(active_key(m), v), ..m }
}

impl SaveProfiles {
    /// No save loaded, nothing stored.
    pub fn new() -> (r: SaveProfiles)
        ensures
            r@.source_path is None,
            r@.miner_tiers == Map::<Seq<char>, u8>::empty(),
            r@.resource_orders == Map::<Seq<char>, Seq<Seq<char>>>::empty(),
            r@.rectangles == Map::<Seq<char>, Seq<MapRectangle>>::empty(),
            r@.circles == Map::<Seq<char>, Seq<MapCircle>>::empty(),
            r@.arrows == Map::<Seq<char>, Seq<MapArrow>>::empty(),
            r@.texts == Map::<Seq<char>, Seq<(u32, u32, Seq<char>)>>::empty(),
            r@.strokes == Map::<Seq<char>, Seq<Seq<WorldPoint>>>::empty(),
            r@.histories == Map::<Seq<char>, Seq<AnnotationModel>>::empty(),
    {
        let r = SaveProfiles {
            source_path: None,
            miner_tiers: ProfileMap::new(),
            resource_orders: ProfileMap::new(),
            rectangles: ProfileMap::new(),
            circles: ProfileMap::new(),
            arrows: ProfileMap::new(),
            texts: ProfileMap::new(),
            strokes: ProfileMap::new(),
            histories: ProfileMap::new(),
        };
        assert(r@.resource_orders =~= Map::<Seq<char>, Seq<Seq<char>>>::empty());
        assert(r@.rectangles =~= Map::<Seq<char>, Seq<MapRectangle>>::empty());
        assert(r@.circles =~= Map::<Seq<char>, Seq<MapCircle>>::empty());
        assert(r@.arrows =~= Map::<Seq<char>, Seq<MapArrow>>::empty());
        assert(r@.texts =~= Map::<Seq<char>, Seq<(u32, u32, Seq<char>)>>::empty());
        assert(r@.strokes =~= Map::<Seq<char>, Seq<Seq<WorldPoint>>>::empty());
        assert(r@.histories =~= Map::<Seq<char>, Seq<AnnotationModel>>::empty());
        r
    }

    /// The key under which the loaded save's notes are stored.
    pub fn active_profile_key(&self) -> (r: String)
        ensures
            r@ == active_key(self@),
    {
        match &self.source_path {
            Some(p) => allocation_profile_key(p.as_str()),
            None => no_save_profile_key(),
        }
    }

    pub fn active_miner_tier(&self) -> (r: u8)
        ensures
            r == tier_read(self@),
            1 <= r <= 3,
    {
        let key = self.active_profile_key();
        let stored: u8 = match self.miner_tiers.get(key.as_str()) {
            Some(t) => *t,
            None => 3,
        };
        if stored < 1 {
            1
        } else if stored > 3 {
            3
        } else {
            stored
        }
    }

    pub fn save_active_miner_tier(&mut self, tier: u8)
        ensures
            final(self)@ == tier_saved(old(self)@, tier),
    {
        let key = self.active_profile_key();
        let clamped: u8 = if tier < 1 {
            1
        } else if tier > 3 {
            3
        } else {
            tier
        };
        self.miner_tiers.insert(key, clamped);
    }

    pub fn active_resource_order(&self) -> (r: Vec<String>)
        ensures
            string_views(r@) == stored_or(self@.resource_orders, active_key(self@), Seq::empty()),
    {
        let key = self.active_profile_key();
        match self.resource_orders.get(key.as_str()) {
            Some(v) => duplicate_strings(v),
            None => {
                let r: Vec<String> = Vec::new();
                assert(string_views(r@) =~= Seq::empty());
                r
            },
        }
    }

    pub fn save_active_resource_order(&mut self, order: Vec<String>)
        ensures
            final(self)@ == order_saved(old(self)@, string_views(order@)),
    {
        let key = self.active_profile_key();
        let ghost k = key@;
        let ghost o = string_views(order@);
        self.resource_orders.insert(key, order);
        assert(self@.resource_orders =~= old(self)@.resource_orders.insert(k, o));
    }

    pub fn active_rectangles(&self) -> (r: Vec<MapRectangle>)
        ensures
            r@ == stored_or(self@.rectangles, active_key(self@), Seq::empty()),
    {
        let key = self.active_profile_key();
        match self.rectangles.get(key.as_str()) {
            Some(v) => duplicate_copies(v),
            None => Vec::new(),
        }
    }

    pub fn save_active_rectangles(&mut self, rectangles: Vec<MapRectangle>)
        ensures
            final(self)@ == rectangles_saved(old(self)@, rectangles@),
    {
        let key = self.active_profile_key();
        let ghost k = key@;
        let ghost v = rectangles@;
        self.rectangles.insert(key, rectangles);
        assert(self@.rectangles =~= old(self)@.rectangles.insert(k, v));
    }

    pub fn active_circles(&self) -> (r: Vec<MapCircle>)
        ensures
            r@ == stored_or(self@.circles, active_key(self@), Seq::empty()),
    {
        let key = self.active_profile_key();
        match self.circles.get(key.as_str()) {
            Some(v) => duplicate_copies(v),
            None => Vec::new(),
        }
    }

    pub fn save_active_circles(&mut self, circles: Vec<MapCircle>)
        ensures
            final(self)@ == circles_saved(old(self)@, circles@),
    {
        let key = self.active_profile_key();
        let ghost k = key@;
        let ghost v = circles@;
        self.circles.insert(key, circles);
        assert(self@.circles =~= old(self)@.circles.insert(k, v));
    }

    pub fn active_arrows(&self) -> (r: Vec<MapArrow>)
        ensures
            r@ == stored_or(self@.arrows, active_key(self@), Seq::empty()),
    {
        let key = self.active_profile_key();
        match self.arrows.get(key.as_str()) {
            Some(v) => duplicate_copies(v),
            None => Vec::new(),
        }
    }

    pub fn save_active_arrows(&mut self, arrows: Vec<MapArrow>)
        ensures
            final(self)@ == arrows_saved(old(self)@, arrows@),
    {
        let key = self.active_profile_key();
        let ghost k = key@;
        let ghost v = arrows@;
        self.arrows.insert(key, arrows);
        assert(self@.arrows =~= old(self)@.arrows.insert(k, v));
    }

    pub fn active_texts(&self) -> (r: Vec<MapText>)
        ensures
            text_views(r@) == stored_or(self@.texts, active_key(self@), Seq::empty()),
    {
        let key = self.active_profile_key();
        match self.texts.get(key.as_str()) {
            Some(v) => duplicate_texts(v),
            None => {
                let r: Vec<MapText> = Vec::new();
                assert(text_views(r@) =~= Seq::empty());
                r
            },
        }
    }

    pub fn save_active_texts(&mut self, texts: Vec<MapText>)
        ensures
            final(self)@ == texts_saved(old(self)@, text_views(texts@)),
    {
        let key = self.active_profile_key();
        let ghost k = key@;
        let ghost v = text_views(texts@);
        self.texts.insert(key, texts);
        assert(self@.texts =~= old(self)@.texts.insert(k, v));
    }

    pub fn active_strokes(&self) -> (r: Vec<MapStroke>)
        ensures
            stroke_views(r@) == stored_or(self@.strokes, active_key(self@), Seq::empty()),
    {
        let key = self.active_profile_key();
        match self.strokes.get(key.as_str()) {
            Some(v) => duplicate_strokes(v),
            None => {
                let r: Vec<MapStroke> = Vec::new();
                assert(stroke_views(r@) =~= Seq::empty());
                r
            },
        }
    }

    pub fn save_active_strokes(&mut self, strokes: Vec<MapStroke>)
        ensures
            final(self)@ == strokes_saved(old(self)@, stroke_views(strokes@)),
    {
        let key = self.active_profile_key();
        let ghost k = key@;
        let ghost v = stroke_views(strokes@);
        self.strokes.insert(key, strokes);
        assert(self@.strokes =~= old(self)@.strokes.insert(k, v));
    }

    pub fn active_drawing_history(&self) -> (r: Vec<MapAnnotation>)
        ensures
            annotation_views(r@) == stored_or(self@.histories, active_key(self@), Seq::empty()),
    {
        let key = self.active_profile_key();
        match self.histories.get(key.as_str()) {
            Some(v) => duplicate_annotations(v),
            None => {
                let r: Vec<MapAnnotation> = Vec::new();
                assert(annotation_views(r@) =~= Seq::empty());
                r
            },
        }
    }

    pub fn save_active_drawing_history(&mut self, history: Vec<MapAnnotation>)
        ensures
            final(self)@ == history_saved(old(self)@, annotation_views(history@)),
    {
        let key = self.active_profile_key();
        let ghost k = key@;
        let ghost v = annotation_views(history@);
        self.histories.insert(key, history);
        assert(self@.histories =~= old(self)@.histories.insert(k, v));
    }

    /// Forgets the loaded save and every note stored for any save.
    pub fn delete_all_notes(&mut self)
        ensures
            final(self)@.source_path is None,
            final(self)@.miner_tiers == Map::<Seq<char>, u8>::empty(),
            final(self)@.resource_orders == Map::<Seq<char>, Seq<Seq<char>>>::empty(),
            final(self)@.rectangles == Map::<Seq<char>, Seq<MapRectangle>>::empty(),
            final(self)@.circles == Map::<Seq<char>, Seq<MapCircle>>::empty(),
            final(self)@.arrows == Map::<Seq<char>, Seq<MapArrow>>::empty(),
            final(self)@.texts == Map::<Seq<char>, Seq<(u32, u32, Seq<char>)>>::empty(),
            final(self)@.strokes == Map::<Seq<char>, Seq<Seq<WorldPoint>>>::empty(),
            final(self)@.histories == Map::<Seq<char>, Seq<AnnotationModel>>::empty(),
    {
        *self = SaveProfiles::new();
    }
}

/// What is read for the loaded save after a value was saved for it is
/// that value (the miner tier clamped to one to three); saving one kind of
/// value leaves what is read of every other kind unchanged.
pub proof fn law_saved_notes_are_read_back(
    m: SaveProfilesModel,
    tier: u8,
    order: Seq<Seq<char>>,
    rectangles: Seq<MapRectangle>,
    texts: Seq<(u32, u32, Seq<char>)>,
    history: Seq<AnnotationModel>,
)
    ensures
        tier_read(tier_saved(m, tier)) == clamp_tier(tier),
        stored_or(order_saved(m, order).resource_orders, active_key(m), Seq::empty()) == order,
        stored_or(rectangles_saved(m, rectangles).rectangles, active_key(m), Seq::empty())
            == rectangles,
        stored_or(texts_saved(m, texts).texts, active_key(m), Seq::empty()) == texts,
        stored_or(history_saved(m, history).histories, active_key(m), Seq::empty()) == history,
        tier_read(rectangles_saved(m, rectangles)) == tier_read(m),
        stored_or(tier_saved(m, tier).rectangles, active_key(m), Seq::empty()) == stored_or(
            m.rectangles,
            active_key(m),
            Seq::empty(),
        ),
{
}

/// Notes saved while one save is loaded are not what another save reads:
/// saving under the loaded save's key leaves every other key's entry as
/// it was.
pub proof fn law_notes_are_kept_per_save(
    m: SaveProfilesModel,
    rectangles: Seq<MapRectangle>,
    other: Seq<char>,
)
    requires
        other != active_key(m),
    ensures
        stored_or(rectangles_saved(m, rectangles).rectangles, other, Seq::empty()) == stored_or(
            m.rectangles,
            other,
            Seq::empty(),
        ),
{
}

} // verus!
