//! The drawings on the map (rectangles, circles, arrows and texts), the undo
//! history of the latest drawings, and the flags that ask for each list to
//! be saved.

use crate::annotations::{
    annotation_eq, annotation_equal, annotation_views, arrow_eq, arrow_equal, circle_eq,
    circle_equal, duplicate_annotations, duplicate_copies, duplicate_texts, rectangle_eq,
    rectangle_equal, text_eq, text_equal, text_views, AnnotationModel, MapAnnotation, MapArrow,
    MapCircle, MapRectangle, MapText,
};
use vstd::prelude::*;

verus! {

/// How many drawings the undo history keeps.
pub const DRAWING_HISTORY_LIMIT: usize = 15;

/// The last `n` items of `s` (all of them when there are fewer).
pub open spec fn keep_last<T>(s: Seq<T>, n: int) -> Seq<T> {
    if s.len() > n {
        s.subrange(s.len() - n, s.len() as int)
    } else {
        s
    }
}

/// The index of the last item of `s` that `p` accepts.
pub open spec fn last_index_where<T>(s: Seq<T>, p: spec_fn(T) -> bool) -> Option<int>
    decreases s.len(),
{
    if s.len() == 0 {
        None
    } else if p(s.last()) {
        Some(s.len() - 1)
    } else {
        last_index_where(s.drop_last(), p)
    }
}

/// `last_index_where` finds the last accepted item, or says there is none.
pub proof fn lemma_last_index_where<T>(s: Seq<T>, p: spec_fn(T) -> bool)
    ensures
        match last_index_where(s, p) {
            Some(i) => 0 <= i < s.len() && p(s[i]) && forall|j: int|
                i < j < s.len() ==> !p(#[trigger] s[j]),
            None => forall|j: int| 0 <= j < s.len() ==> !p(#[trigger] s[j]),
        },
    decreases s.len(),
{
    if s.len() > 0 && !p(s.last()) {
        lemma_last_index_where(s.drop_last(), p);
        assert forall|j: int| 0 <= j < s.len() - 1 implies s[j] == s.drop_last()[j] by {}
    }
}

pub open spec fn matches_rectangle(r: MapRectangle) -> spec_fn(MapRectangle) -> bool {
    |x: MapRectangle| rectangle_eq(x, r)
}

pub open spec fn matches_circle(c: MapCircle) -> spec_fn(MapCircle) -> bool {
    |x: MapCircle| circle_eq(x, c)
}

pub open spec fn matches_arrow(a: MapArrow) -> spec_fn(MapArrow) -> bool {
    |x: MapArrow| arrow_eq(x, a)
}

pub open spec fn matches_text(t: (u32, u32, Seq<char>)) -> spec_fn((u32, u32, Seq<char>)) -> bool {
    |x: (u32, u32, Seq<char>)| text_eq(x, t)
}

pub open spec fn matches_annotation(a: AnnotationModel) -> spec_fn(AnnotationModel) -> bool {
    |x: AnnotationModel| annotation_eq(x, a)
}

/// `s` without its last item that `p` accepts, if there is one.
pub open spec fn without_last_match<T>(s: Seq<T>, p: spec_fn(T) -> bool) -> Seq<T> {
    match last_index_where(s, p) {
        Some(i) => s.remove(i),
        None => s,
    }
}

/// The drawings as mathematical values.
pub ghost struct DrawingsModel {
    pub rectangles: Seq<MapRectangle>,
    pub circles: Seq<MapCircle>,
    pub arrows: Seq<MapArrow>,
    pub texts: Seq<(u32, u32, Seq<char>)>,
    pub history: Seq<AnnotationModel>,
    pub rectangles_changed: bool,
    pub circles_changed: bool,
    pub arrows_changed: bool,
    pub texts_changed: bool,
    pub history_changed: bool,
}

/// A drawing appended to the undo history, which keeps the latest ones.
pub open spec fn recorded(m: DrawingsModel, a: AnnotationModel) -> DrawingsModel {
    DrawingsModel {
        history: keep_last(m.history.push(a), DRAWING_HISTORY_LIMIT as int),
        history_changed: true,
        ..m
    }
}

/// A drawing taken out of the undo history: its last equal entry, if any.
pub open spec fn forgotten(m: DrawingsModel, a: AnnotationModel) -> DrawingsModel {
    match last_index_where(m.history, matches_annotation(a)) {
        Some(i) => DrawingsModel { history: m.history.remove(i), history_changed: true, ..m },
        None => m,
    }
}

/// A rectangle added and recorded in the undo history.
pub open spec fn with_rectangle(m: DrawingsModel, r: MapRectangle) -> DrawingsModel {
    recorded(
        DrawingsModel { rectangles: m.rectangles.push(r), rectangles_changed: true, ..m },
        AnnotationModel::Rectangle(r),
    )
}

pub open spec fn with_circle(m: DrawingsModel, c: MapCircle) -> DrawingsModel {
    recorded(
        DrawingsModel { circles: m.circles.push(c), circles_changed: true, ..m },
        AnnotationModel::Circle(c),
    )
}

pub open spec fn with_arrow(m: DrawingsModel, a: MapArrow) -> DrawingsModel {
    recorded(
        DrawingsModel { arrows: m.arrows.push(a), arrows_changed: true, ..m },
        AnnotationModel::Arrow(a),
    )
}

pub open spec fn with_text(m: DrawingsModel, t: (u32, u32, Seq<char>)) -> DrawingsModel {
    recorded(
        DrawingsModel { texts: m.texts.push(t), texts_changed: true, ..m },
        AnnotationModel::Text(t.0, t.1, t.2),
    )
}

/// Undo of the latest drawing. The history's last entry is taken out, and
/// the last equal drawing of its kind with it; with an empty history the
/// last rectangle is taken out. The second part says whether anything was
/// undone.
pub open spec fn undone(m: DrawingsModel) -> (DrawingsModel, bool) {
    if m.history.len() > 0 {
        let rest = DrawingsModel {
            history: m.history.drop_last(),
            history_changed: true,
            ..m
        };
        let next = match m.history.last() {
            AnnotationModel::Rectangle(r) => match last_index_where(m.rectangles, matches_rectangle(r)) {
                Some(i) => DrawingsModel { rectangles: m.rectangles.remove(i), rectangles_changed: true, ..rest },
                None => rest,
            },
            AnnotationModel::Circle(c) => match last_index_where(m.circles, matches_circle(c)) {
                Some(i) => DrawingsModel { circles: m.circles.remove(i), circles_changed: true, ..rest },
                None => rest,
            },
            AnnotationModel::Arrow(a) => match last_index_where(m.arrows, matches_arrow(a)) {
                Some(i) => DrawingsModel { arrows: m.arrows.remove(i), arrows_changed: true, ..rest },
                None => rest,
            },
            AnnotationModel::Text(x, y, t) => match last_index_where(m.texts, matches_text((x, y, t))) {
                Some(i) => DrawingsModel { texts: m.texts.remove(i), texts_changed: true, ..rest },
                None => rest,
            },
            _ => rest,
        };
        (next, true)
    } else if m.rectangles.len() > 0 {
        (DrawingsModel { rectangles: m.rectangles.drop_last(), rectangles_changed: true, ..m }, true)
    } else {
        (m, false)
    }
}

/// Undoing right after adding a drawing takes exactly that drawing out
/// again: the lists and the history are as before, with both marked to be
/// saved. This holds when the history had room for one more drawing and
/// the drawing's coordinates are numbers (a NaN coordinate equals nothing,
/// so such a drawing cannot be found again).
pub proof fn law_undo_after_add_restores(
    m: DrawingsModel,
    r: MapRectangle,
    c: MapCircle,
    a: MapArrow,
    t: (u32, u32, Seq<char>),
)
    requires
        m.history.len() < DRAWING_HISTORY_LIMIT,
    ensures
        rectangle_eq(r, r) ==> undone(with_rectangle(m, r)) == (
            DrawingsModel { rectangles_changed: true, history_changed: true, ..m },
            true,
        ),
        circle_eq(c, c) ==> undone(with_circle(m, c)) == (
            DrawingsModel { circles_changed: true, history_changed: true, ..m },
            true,
        ),
        arrow_eq(a, a) ==> undone(with_arrow(m, a)) == (
            DrawingsModel { arrows_changed: true, history_changed: true, ..m },
            true,
        ),
        text_eq(t, t) ==> undone(with_text(m, t)) == (
            DrawingsModel { texts_changed: true, history_changed: true, ..m },
            true,
        ),
{
    let h = m.history;
    assert(keep_last(h.push(AnnotationModel::Rectangle(r)), DRAWING_HISTORY_LIMIT as int) == h.push(
        AnnotationModel::Rectangle(r),
    ));
    assert(h.push(AnnotationModel::Rectangle(r)).drop_last() =~= h);
    assert(m.rectangles.push(r).last() == r);
    assert(m.rectangles.push(r).remove(m.rectangles.len() as int) =~= m.rectangles);
    assert(keep_last(h.push(AnnotationModel::Circle(c)), DRAWING_HISTORY_LIMIT as int) == h.push(
        AnnotationModel::Circle(c),
    ));
    assert(h.push(AnnotationModel::Circle(c)).drop_last() =~= h);
    assert(m.circles.push(c).last() == c);
    assert(m.circles.push(c).remove(m.circles.len() as int) =~= m.circles);
    assert(keep_last(h.push(AnnotationModel::Arrow(a)), DRAWING_HISTORY_LIMIT as int) == h.push(
        AnnotationModel::Arrow(a),
    ));
    assert(h.push(AnnotationModel::Arrow(a)).drop_last() =~= h);
    assert(m.arrows.push(a).last() == a);
    assert(m.arrows.push(a).remove(m.arrows.len() as int) =~= m.arrows);
    assert(keep_last(h.push(AnnotationModel::Text(t.0, t.1, t.2)), DRAWING_HISTORY_LIMIT as int)
        == h.push(AnnotationModel::Text(t.0, t.1, t.2)));
    assert(h.push(AnnotationModel::Text(t.0, t.1, t.2)).drop_last() =~= h);
    assert(m.texts.push(t).last() == t);
    assert(m.texts.push(t).remove(m.texts.len() as int) =~= m.texts);
}

pub open spec fn opt_index(o: Option<usize>) -> Option<int> {
    match o {
        Some(i) => Some(i as int),
        None => None,
    }
}

fn last_rectangle_match(v: &Vec<MapRectangle>, r: &MapRectangle) -> (i: Option<usize>)
    ensures
        opt_index(i) == last_index_where(v@, matches_rectangle(*r)),
{
    let ghost p = matches_rectangle(*r);
    let mut k: usize = v.len();
    assert(v@.take(k as int) =~= v@);
    while k > 0
        invariant
            p == matches_rectangle(*r),
            k <= v@.len(),
            last_index_where(v@.take(k as int), p) == last_index_where(v@, p),
        decreases k,
    {
        let ghost t = v@.take(k as int);
        if rectangle_equal(&v[k - 1], r) {
            assert(t.last() == v@[k - 1]);
            assert(p(t.last()));
            assert(last_index_where(t, p) == Some(k - 1));
            return Some(k - 1);
        }
        assert(t.last() == v@[k - 1]);
        assert(!p(t.last()));
        assert(t.drop_last() =~= v@.take(k - 1));
        assert(last_index_where(t, p) == last_index_where(t.drop_last(), p));
        k = k - 1;
    }
    None
}

fn last_circle_match(v: &Vec<MapCircle>, c: &MapCircle) -> (i: Option<usize>)
    ensures
        opt_index(i) == last_index_where(v@, matches_circle(*c)),
{
    let ghost p = matches_circle(*c);
    let mut k: usize = v.len();
    assert(v@.take(k as int) =~= v@);
    while k > 0
        invariant
            p == matches_circle(*c),
            k <= v@.len(),
            last_index_where(v@.take(k as int), p) == last_index_where(v@, p),
        decreases k,
    {
        let ghost t = v@.take(k as int);
        if circle_equal(&v[k - 1], c) {
            assert(t.last() == v@[k - 1]);
            assert(p(t.last()));
            assert(last_index_where(t, p) == Some(k - 1));
            return Some(k - 1);
        }
        assert(t.last() == v@[k - 1]);
        assert(!p(t.last()));
        assert(t.drop_last() =~= v@.take(k - 1));
        assert(last_index_where(t, p) == last_index_where(t.drop_last(), p));
        k = k - 1;
    }
    None
}

fn last_arrow_match(v: &Vec<MapArrow>, a: &MapArrow) -> (i: Option<usize>)
    ensures
        opt_index(i) == last_index_where(v@, matches_arrow(*a)),
{
    let ghost p = matches_arrow(*a);
    let mut k: usize = v.len();
    assert(v@.take(k as int) =~= v@);
    while k > 0
        invariant
            p == matches_arrow(*a),
            k <= v@.len(),
            last_index_where(v@.take(k as int), p) == last_index_where(v@, p),
        decreases k,
    {
        let ghost t = v@.take(k as int);
        if arrow_equal(&v[k - 1], a) {
            assert(t.last() == v@[k - 1]);
            assert(p(t.last()));
            assert(last_index_where(t, p) == Some(k - 1));
            return Some(k - 1);
        }
        assert(t.last() == v@[k - 1]);
        assert(!p(t.last()));
        assert(t.drop_last() =~= v@.take(k - 1));
        assert(last_index_where(t, p) == last_index_where(t.drop_last(), p));
        k = k - 1;
    }
    None
}

fn last_text_match(v: &Vec<MapText>, t: &MapText) -> (i: Option<usize>)
    ensures
        opt_index(i) == last_index_where(text_views(v@), matches_text(t@)),
{
    let ghost p = matches_text(t@);
    let ghost s = text_views(v@);
    let mut k: usize = v.len();
    assert(s.take(k as int) =~= s);
    while k > 0
        invariant
            p == matches_text(t@),
            k <= v@.len(),
            s == text_views(v@),
            last_index_where(s.take(k as int), p) == last_index_where(s, p),
        decreases k,
    {
        let ghost w = s.take(k as int);
        if text_equal(&v[k - 1], t) {
            assert(w.last() == v@[k - 1]@);
            assert(p(w.last()));
            assert(last_index_where(w, p) == Some(k - 1));
            return Some(k - 1);
        }
        assert(w.last() == v@[k - 1]@);
        assert(!p(w.last()));
        assert(w.drop_last() =~= s.take(k - 1));
        assert(last_index_where(w, p) == last_index_where(w.drop_last(), p));
        k = k - 1;
    }
    None
}

fn last_annotation_match(v: &Vec<MapAnnotation>, a: &MapAnnotation) -> (i: Option<usize>)
    ensures
        opt_index(i) == last_index_where(annotation_views(v@), matches_annotation(a@)),
{
    let ghost p = matches_annotation(a@);
    let ghost s = annotation_views(v@);
    let mut k: usize = v.len();
    assert(s.take(k as int) =~= s);
    while k > 0
        invariant
            p == matches_annotation(a@),
            k <= v@.len(),
            s == annotation_views(v@),
            last_index_where(s.take(k as int), p) == last_index_where(s, p),
        decreases k,
    {
        let ghost w = s.take(k as int);
        if annotation_equal(&v[k - 1], a) {
            assert(w.last() == v@[k - 1]@);
            assert(p(w.last()));
            assert(last_index_where(w, p) == Some(k - 1));
            return Some(k - 1);
        }
        assert(w.last() == v@[k - 1]@);
        assert(!p(w.last()));
        assert(w.drop_last() =~= s.take(k - 1));
        assert(last_index_where(w, p) == last_index_where(w.drop_last(), p));
        k = k - 1;
    }
    None
}

/// The drawings of the map.
pub struct Drawings {
    rectangles: Vec<MapRectangle>,
    circles: Vec<MapCircle>,
    arrows: Vec<MapArrow>,
    texts: Vec<MapText>,
    history: Vec<MapAnnotation>,
    rectangles_changed: bool,
    circles_changed: bool,
    arrows_changed: bool,
    texts_changed: bool,
    history_changed: bool,
}

impl View for Drawings {
    type V = DrawingsModel;

    closed spec fn view(&self) -> DrawingsModel {
        DrawingsModel {
            rectangles: self.rectangles@,
            circles: self.circles@,
            arrows: self.arrows@,
            texts: text_views(self.texts@),
            history: annotation_views(self.history@),
            rectangles_changed: self.rectangles_changed,
            circles_changed: self.circles_changed,
            arrows_changed: self.arrows_changed,
            texts_changed: self.texts_changed,
            history_changed: self.history_changed,
        }
    }
}

/// No drawings, nothing to save.
pub open spec fn empty_drawings() -> DrawingsModel {
    DrawingsModel {
        rectangles: Seq::empty(),
        circles: Seq::empty(),
        arrows: Seq::empty(),
        texts: Seq::empty(),
        history: Seq::empty(),
        rectangles_changed: false,
        circles_changed: false,
        arrows_changed: false,
        texts_changed: false,
        history_changed: false,
    }
}

impl Drawings {
    #[verifier::type_invariant]
    spec fn well_formed(self) -> bool {
        self.history@.len() <= DRAWING_HISTORY_LIMIT
    }

    pub fn new() -> (r: Drawings)
        ensures
            r@ == empty_drawings(),
    {
        let r = Drawings {
            rectangles: Vec::new(),
            circles: Vec::new(),
            arrows: Vec::new(),
            texts: Vec::new(),
            history: Vec::new(),
            rectangles_changed: false,
            circles_changed: false,
            arrows_changed: false,
            texts_changed: false,
            history_changed: false,
        };
        assert(text_views(r.texts@) =~= Seq::empty());
        assert(annotation_views(r.history@) =~= Seq::empty());
        r
    }

    pub fn rectangles(&self) -> (r: &Vec<MapRectangle>)
        ensures
            r@ == self@.rectangles,
    {
        &self.rectangles
    }

    pub fn circles(&self) -> (r: &Vec<MapCircle>)
        ensures
            r@ == self@.circles,
    {
        &self.circles
    }

    pub fn arrows(&self) -> (r: &Vec<MapArrow>)
        ensures
            r@ == self@.arrows,
    {
        &self.arrows
    }

    pub fn texts(&self) -> (r: &Vec<MapText>)
        ensures
            text_views(r@) == self@.texts,
    {
        &self.texts
    }

    /// The undo history, oldest first. It never holds more than fifteen
    /// drawings.
    pub fn history(&self) -> (r: &Vec<MapAnnotation>)
        ensures
            annotation_views(r@) == self@.history,
            self@.history.len() <= DRAWING_HISTORY_LIMIT,
    {
        proof {
            use_type_invariant(self);
        }
        &self.history
    }

    /// Replaces the rectangles with saved ones; nothing is left to save.
    pub fn set_rectangles(&mut self, rectangles: Vec<MapRectangle>)
        ensures
            final(self)@ == (DrawingsModel {
                rectangles: rectangles@,
                rectangles_changed: false,
                ..old(self)@
            }),
    {
        proof {
            use_type_invariant(&*self);
        }
        self.rectangles = rectangles;
        self.rectangles_changed = false;
    }

    pub fn set_circles(&mut self, circles: Vec<MapCircle>)
        ensures
            final(self)@ == (DrawingsModel { circles: circles@, circles_changed: false, ..old(self)@ }),
    {
        proof {
            use_type_invariant(&*self);
        }
        self.circles = circles;
        self.circles_changed = false;
    }

    pub fn set_arrows(&mut self, arrows: Vec<MapArrow>)
        ensures
            final(self)@ == (DrawingsModel { arrows: arrows@, arrows_changed: false, ..old(self)@ }),
    {
        proof {
            use_type_invariant(&*self);
        }
        self.arrows = arrows;
        self.arrows_changed = false;
    }

    pub fn set_texts(&mut self, texts: Vec<MapText>)
        ensures
            final(self)@ == (DrawingsModel {
                texts: text_views(texts@),
                texts_changed: false,
                ..old(self)@
            }),
    {
        proof {
            use_type_invariant(&*self);
        }
        self.texts = texts;
        self.texts_changed = false;
    }

    /// Replaces the undo history with a saved one, keeping its latest
    /// fifteen drawings; nothing is left to save.
    pub fn set_history(&mut self, history: Vec<MapAnnotation>)
        ensures
            final(self)@ == (DrawingsModel {
                history: keep_last(annotation_views(history@), DRAWING_HISTORY_LIMIT as int),
                history_changed: false,
                ..old(self)@
            }),
    {
        proof {
            use_type_invariant(&*self);
        }
        let mut kept = history;
        let ghost all = kept@;
        if kept.len() > DRAWING_HISTORY_LIMIT {
            let at = kept.len() - DRAWING_HISTORY_LIMIT;
            kept = kept.split_off(at);
            assert(annotation_views(kept@) =~= keep_last(
                annotation_views(all),
                DRAWING_HISTORY_LIMIT as int,
            ));
        }
        self.history = kept;
        self.history_changed = false;
    }

    /// Appends a drawing to the undo history, dropping the oldest entry
    /// beyond fifteen.
    pub fn record(&mut self, annotation: MapAnnotation)
        ensures
            final(self)@ == recorded(old(self)@, annotation@),
    {
        proof {
            use_type_invariant(&*self);
        }
        let ghost before = annotation_views(self.history@);
        let mut history: Vec<MapAnnotation> = Vec::new();
        std::mem::swap(&mut history, &mut self.history);
        history.push(annotation);
        assert(annotation_views(history@) =~= before.push(annotation@));
        if history.len() > DRAWING_HISTORY_LIMIT {
            let ghost pushed = history@;
            history.remove(0);
            assert(annotation_views(history@) =~= keep_last(
                before.push(annotation@),
                DRAWING_HISTORY_LIMIT as int,
            ));
        }
        self.history = history;
        self.history_changed = true;
    }

    /// Takes the last entry equal to `annotation` out of the undo history.
    pub fn forget(&mut self, annotation: &MapAnnotation)
        ensures
            final(self)@ == forgotten(old(self)@, annotation@),
    {
        proof {
            use_type_invariant(&*self);
        }
        let found = last_annotation_match(&self.history, annotation);
        proof {
            lemma_last_index_where(annotation_views(self.history@), matches_annotation(annotation@));
        }
        if let Some(index) = found {
            let ghost before = self.history@;
            let mut history: Vec<MapAnnotation> = Vec::new();
            std::mem::swap(&mut history, &mut self.history);
            history.remove(index);
            assert(annotation_views(history@) =~= annotation_views(before).remove(index as int));
            self.history = history;
            self.history_changed = true;
        }
    }

    /// Adds a rectangle, asks for the rectangles to be saved and records it
    /// in the undo history.
    pub fn add_rectangle(&mut self, rectangle: MapRectangle)
        ensures
            final(self)@ == with_rectangle(old(self)@, rectangle),
    {
        proof {
            use_type_invariant(&*self);
        }
        let mut rectangles: Vec<MapRectangle> = Vec::new();
        std::mem::swap(&mut rectangles, &mut self.rectangles);
        rectangles.push(rectangle);
        self.rectangles = rectangles;
        self.rectangles_changed = true;
        self.record(MapAnnotation::Rectangle(rectangle));
    }

    pub fn add_circle(&mut self, circle: MapCircle)
        ensures
            final(self)@ == with_circle(old(self)@, circle),
    {
        proof {
            use_type_invariant(&*self);
        }
        let mut circles: Vec<MapCircle> = Vec::new();
        std::mem::swap(&mut circles, &mut self.circles);
        circles.push(circle);
        self.circles = circles;
        self.circles_changed = true;
        self.record(MapAnnotation::Circle(circle));
    }

    pub fn add_arrow(&mut self, arrow: MapArrow)
        ensures
            final(self)@ == with_arrow(old(self)@, arrow),
    {
        proof {
            use_type_invariant(&*self);
        }
        let mut arrows: Vec<MapArrow> = Vec::new();
        std::mem::swap(&mut arrows, &mut self.arrows);
        arrows.push(arrow);
        self.arrows = arrows;
        self.arrows_changed = true;
        self.record(MapAnnotation::Arrow(arrow));
    }

    pub fn add_text(&mut self, text: MapText)
        ensures
            final(self)@ == with_text(old(self)@, text@),
    {
        proof {
            use_type_invariant(&*self);
        }
        let copy = text.duplicate();
        let ghost before = text_views(self.texts@);
        let mut texts: Vec<MapText> = Vec::new();
        std::mem::swap(&mut texts, &mut self.texts);
        texts.push(text);
        assert(text_views(texts@) =~= before.push(copy@));
        self.texts = texts;
        self.texts_changed = true;
        self.record(MapAnnotation::Text(copy));
    }

    /// Puts `rectangle` in place of the one at `index` (a move); an index
    /// past the end changes nothing.
    pub fn replace_rectangle(&mut self, index: usize, rectangle: MapRectangle)
        ensures
            index < old(self)@.rectangles.len() ==> final(self)@ == (DrawingsModel {
                rectangles: old(self)@.rectangles.update(index as int, rectangle),
                ..old(self)@
            }),
            index >= old(self)@.rectangles.len() ==> final(self)@ == old(self)@,
    {
        proof {
            use_type_invariant(&*self);
        }
        if index < self.rectangles.len() {
            let mut rectangles: Vec<MapRectangle> = Vec::new();
            std::mem::swap(&mut rectangles, &mut self.rectangles);
            rectangles.set(index, rectangle);
            self.rectangles = rectangles;
        }
    }

    /// Asks for the rectangles to be saved.
    pub fn mark_rectangles_changed(&mut self)
        ensures
            final(self)@ == (DrawingsModel { rectangles_changed: true, ..old(self)@ }),
    {
        proof {
            use_type_invariant(&*self);
        }
        self.rectangles_changed = true;
    }

    /// Deletes the rectangle at `index` and its entry in the undo history.
    /// Returns whether there was one.
    pub fn remove_rectangle(&mut self, index: usize) -> (removed: bool)
        ensures
            removed == (index < old(self)@.rectangles.len()),
            removed ==> final(self)@ == forgotten(
                DrawingsModel {
                    rectangles: old(self)@.rectangles.remove(index as int),
                    rectangles_changed: true,
                    ..old(self)@
                },
                AnnotationModel::Rectangle(old(self)@.rectangles[index as int]),
            ),
            !removed ==> final(self)@ == old(self)@,
    {
        proof {
            use_type_invariant(&*self);
        }
        if index < self.rectangles.len() {
            let mut rectangles: Vec<MapRectangle> = Vec::new();
            std::mem::swap(&mut rectangles, &mut self.rectangles);
            let rectangle = rectangles.remove(index);
            self.rectangles = rectangles;
            self.rectangles_changed = true;
            self.forget(&MapAnnotation::Rectangle(rectangle));
            true
        } else {
            false
        }
    }

    pub fn remove_circle(&mut self, index: usize) -> (removed: bool)
        ensures
            removed == (index < old(self)@.circles.len()),
            removed ==> final(self)@ == forgotten(
                DrawingsModel {
                    circles: old(self)@.circles.remove(index as int),
                    circles_changed: true,
                    ..old(self)@
                },
                AnnotationModel::Circle(old(self)@.circles[index as int]),
            ),
            !removed ==> final(self)@ == old(self)@,
    {
        proof {
            use_type_invariant(&*self);
        }
        if index < self.circles.len() {
            let mut circles: Vec<MapCircle> = Vec::new();
            std::mem::swap(&mut circles, &mut self.circles);
            let circle = circles.remove(index);
            self.circles = circles;
            self.circles_changed = true;
            self.forget(&MapAnnotation::Circle(circle));
            true
        } else {
            false
        }
    }

    pub fn remove_arrow(&mut self, index: usize) -> (removed: bool)
        ensures
            removed == (index < old(self)@.arrows.len()),
            removed ==> final(self)@ == forgotten(
                DrawingsModel {
                    arrows: old(self)@.arrows.remove(index as int),
                    arrows_changed: true,
                    ..old(self)@
                },
                AnnotationModel::Arrow(old(self)@.arrows[index as int]),
            ),
            !removed ==> final(self)@ == old(self)@,
    {
        proof {
            use_type_invariant(&*self);
        }
        if index < self.arrows.len() {
            let mut arrows: Vec<MapArrow> = Vec::new();
            std::mem::swap(&mut arrows, &mut self.arrows);
            let arrow = arrows.remove(index);
            self.arrows = arrows;
            self.arrows_changed = true;
            self.forget(&MapAnnotation::Arrow(arrow));
            true
        } else {
            false
        }
    }

    pub fn remove_text(&mut self, index: usize) -> (removed: bool)
        ensures
            removed == (index < old(self)@.texts.len()),
            removed ==> final(self)@ == forgotten(
                DrawingsModel {
                    texts: old(self)@.texts.remove(index as int),
                    texts_changed: true,
                    ..old(self)@
                },
                AnnotationModel::Text(
                    old(self)@.texts[index as int].0,
                    old(self)@.texts[index as int].1,
                    old(self)@.texts[index as int].2,
                ),
            ),
            !removed ==> final(self)@ == old(self)@,
    {
        proof {
            use_type_invariant(&*self);
        }
        if index < self.texts.len() {
            let ghost before = self.texts@;
            let mut texts: Vec<MapText> = Vec::new();
            std::mem::swap(&mut texts, &mut self.texts);
            let text = texts.remove(index);
            assert(text_views(texts@) =~= text_views(before).remove(index as int));
            self.texts = texts;
            self.texts_changed = true;
            self.forget(&MapAnnotation::Text(text));
            true
        } else {
            false
        }
    }

    /// Undoes the latest drawing: takes the history's last entry out, and
    /// the last equal drawing of its kind with it; with an empty history,
    /// takes the last rectangle out. Returns whether anything was undone.
    pub fn undo(&mut self) -> (undid: bool)
        ensures
            (final(self)@, undid) == undone(old(self)@),
    {
        proof {
            use_type_invariant(&*self);
        }
        let ghost before = annotation_views(self.history@);
        let mut history: Vec<MapAnnotation> = Vec::new();
        std::mem::swap(&mut history, &mut self.history);
        let last = history.pop();
        match last {
            Some(annotation) => {
                assert(annotation@ == before.last());
                assert(annotation_views(history@) =~= before.drop_last());
                self.history = history;
                self.history_changed = true;
                match annotation {
                    MapAnnotation::Rectangle(r) => {
                        let found = last_rectangle_match(&self.rectangles, &r);
                        proof {
                            lemma_last_index_where(self.rectangles@, matches_rectangle(r));
                        }
                        if let Some(i) = found {
                            let mut rectangles: Vec<MapRectangle> = Vec::new();
                            std::mem::swap(&mut rectangles, &mut self.rectangles);
                            rectangles.remove(i);
                            self.rectangles = rectangles;
                            self.rectangles_changed = true;
                        }
                    },
                    MapAnnotation::Circle(c) => {
                        let found = last_circle_match(&self.circles, &c);
                        proof {
                            lemma_last_index_where(self.circles@, matches_circle(c));
                        }
                        if let Some(i) = found {
                            let mut circles: Vec<MapCircle> = Vec::new();
                            std::mem::swap(&mut circles, &mut self.circles);
                            circles.remove(i);
                            self.circles = circles;
                            self.circles_changed = true;
                        }
                    },
                    MapAnnotation::Arrow(a) => {
                        let found = last_arrow_match(&self.arrows, &a);
                        proof {
                            lemma_last_index_where(self.arrows@, matches_arrow(a));
                        }
                        if let Some(i) = found {
                            let mut arrows: Vec<MapArrow> = Vec::new();
                            std::mem::swap(&mut arrows, &mut self.arrows);
                            arrows.remove(i);
                            self.arrows = arrows;
                            self.arrows_changed = true;
                        }
                    },
                    MapAnnotation::Text(t) => {
                        let found = last_text_match(&self.texts, &t);
                        proof {
                            lemma_last_index_where(text_views(self.texts@), matches_text(t@));
                        }
                        if let Some(i) = found {
                            let ghost texts_before = self.texts@;
                            let mut texts: Vec<MapText> = Vec::new();
                            std::mem::swap(&mut texts, &mut self.texts);
                            texts.remove(i);
                            assert(text_views(texts@) =~= text_views(texts_before).remove(i as int));
                            self.texts = texts;
                            self.texts_changed = true;
                        }
                    },
                    _ => {},
                }
                true
            },
            None => {
                self.history = history;
                if self.rectangles.len() > 0 {
                    let mut rectangles: Vec<MapRectangle> = Vec::new();
                    std::mem::swap(&mut rectangles, &mut self.rectangles);
                    rectangles.pop();
                    self.rectangles = rectangles;
                    self.rectangles_changed = true;
                    true
                } else {
                    false
                }
            },
        }
    }

    /// The rectangles when they are to be saved, clearing that request.
    pub fn take_rectangle_save(&mut self) -> (r: Option<Vec<MapRectangle>>)
        ensures
            old(self)@.rectangles_changed ==> r is Some && r->0@ == old(self)@.rectangles
                && final(self)@ == (DrawingsModel { rectangles_changed: false, ..old(self)@ }),
            !old(self)@.rectangles_changed ==> r is None && final(self)@ == old(self)@,
    {
        proof {
            use_type_invariant(&*self);
        }
        if !self.rectangles_changed {
            return None;
        }
        self.rectangles_changed = false;
        Some(duplicate_copies(&self.rectangles))
    }

    pub fn take_circle_save(&mut self) -> (r: Option<Vec<MapCircle>>)
        ensures
            old(self)@.circles_changed ==> r is Some && r->0@ == old(self)@.circles
                && final(self)@ == (DrawingsModel { circles_changed: false, ..old(self)@ }),
            !old(self)@.circles_changed ==> r is None && final(self)@ == old(self)@,
    {
        proof {
            use_type_invariant(&*self);
        }
        if !self.circles_changed {
            return None;
        }
        self.circles_changed = false;
        Some(duplicate_copies(&self.circles))
    }

    pub fn take_arrow_save(&mut self) -> (r: Option<Vec<MapArrow>>)
        ensures
            old(self)@.arrows_changed ==> r is Some && r->0@ == old(self)@.arrows
                && final(self)@ == (DrawingsModel { arrows_changed: false, ..old(self)@ }),
            !old(self)@.arrows_changed ==> r is None && final(self)@ == old(self)@,
    {
        proof {
            use_type_invariant(&*self);
        }
        if !self.arrows_changed {
            return None;
        }
        self.arrows_changed = false;
        Some(duplicate_copies(&self.arrows))
    }

    pub fn take_text_save(&mut self) -> (r: Option<Vec<MapText>>)
        ensures
            old(self)@.texts_changed ==> r is Some && text_views(r->0@) == old(self)@.texts
                && final(self)@ == (DrawingsModel { texts_changed: false, ..old(self)@ }),
            !old(self)@.texts_changed ==> r is None && final(self)@ == old(self)@,
    {
        proof {
            use_type_invariant(&*self);
        }
        if !self.texts_changed {
            return None;
        }
        self.texts_changed = false;
        Some(duplicate_texts(&self.texts))
    }

    pub fn take_history_save(&mut self) -> (r: Option<Vec<MapAnnotation>>)
        ensures
            old(self)@.history_changed ==> r is Some && annotation_views(r->0@)
                == old(self)@.history && final(self)@ == (DrawingsModel {
                history_changed: false,
                ..old(self)@
            }),
            !old(self)@.history_changed ==> r is None && final(self)@ == old(self)@,
    {
        proof {
            use_type_invariant(&*self);
        }
        if !self.history_changed {
            return None;
        }
        self.history_changed = false;
        Some(duplicate_annotations(&self.history))
    }
}

} // verus!
