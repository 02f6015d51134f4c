//! Drawings on the map. Coordinates are single-precision world coordinates
//! held as their IEEE-754 bit patterns; two coordinates are equal as the
//! floating-point values they encode are (`NaN` equals nothing, the two
//! zeros are equal).

use vstd::prelude::*;

verus! {

/// The bit pattern encodes a NaN.
pub open spec fn f32_bits_is_nan(b: u32) -> bool {
    (b & 0x7f80_0000u32) == 0x7f80_0000u32 && (b & 0x007f_ffffu32) != 0
}

/// The bit pattern encodes positive or negative zero.
pub open spec fn f32_bits_is_zero(b: u32) -> bool {
    (b & 0x7fff_ffffu32) == 0
}

/// IEEE-754 equality of two single-precision values given by their bits.
pub open spec fn f32_bits_eq(a: u32, b: u32) -> bool {
    !f32_bits_is_nan(a) && !f32_bits_is_nan(b) && (a == b || (f32_bits_is_zero(a)
        && f32_bits_is_zero(b)))
}

/// `==` of `f32`, on bit patterns.
pub fn f32_bits_equal(a: u32, b: u32) -> (r: bool)
    ensures
        r == f32_bits_eq(a, b),
{
    let a_nan = (a & 0x7f80_0000u32) == 0x7f80_0000u32 && (a & 0x007f_ffffu32) != 0;
    let b_nan = (b & 0x7f80_0000u32) == 0x7f80_0000u32 && (b & 0x007f_ffffu32) != 0;
    !a_nan && !b_nan && (a == b || ((a & 0x7fff_ffffu32) == 0 && (b & 0x7fff_ffffu32) == 0))
}

/// A world coordinate pair as bit patterns.
pub type WorldPoint = (u32, u32);

#[derive(Debug, Clone, Copy, PartialEq, Eq, Structural)]
pub struct MapRectangle {
    pub min_world_x: u32,
    pub min_world_y: u32,
    pub max_world_x: u32,
    pub max_world_y: u32,
}

#[derive(Debug, Clone, Copy, PartialEq, Eq, Structural)]
pub struct MapCircle {
    pub center_world_x: u32,
    pub center_world_y: u32,
    pub radius_world: u32,
}

#[derive(Debug, Clone, Copy, PartialEq, Eq, Structural)]
pub struct MapArrow {
    pub start_world_x: u32,
    pub start_world_y: u32,
    pub end_world_x: u32,
    pub end_world_y: u32,
}

#[derive(Debug)]
pub struct MapText {
    pub world_x: u32,
    pub world_y: u32,
    pub text: String,
}

#[derive(Debug)]
pub struct MapStroke {
    pub points: Vec<WorldPoint>,
}

#[derive(Debug)]
pub struct MapStrokeErase {
    pub original: MapStroke,
    pub replacement: Vec<MapStroke>,
}

/// A drawing, as the undo history records it.
#[derive(Debug)]
pub enum MapAnnotation {
    Rectangle(MapRectangle),
    Circle(MapCircle),
    Arrow(MapArrow),
    Text(MapText),
    Stroke(MapStroke),
    StrokeErase(MapStrokeErase),
}

/// A drawing as mathematical values.
pub ghost enum AnnotationModel {
    Rectangle(MapRectangle),
    Circle(MapCircle),
    Arrow(MapArrow),
    Text(u32, u32, Seq<char>),
    Stroke(Seq<WorldPoint>),
    StrokeErase(Seq<WorldPoint>, Seq<Seq<WorldPoint>>),
}

impl View for MapText {
    type V = (u32, u32, Seq<char>);

    open spec fn view(&self) -> (u32, u32, Seq<char>) {
        (self.world_x, self.world_y, self.text@)
    }
}

impl View for MapStroke {
    type V = Seq<WorldPoint>;

    open spec fn view(&self) -> Seq<WorldPoint> {
        self.points@
    }
}

pub open spec fn stroke_views(v: Seq<MapStroke>) -> Seq<Seq<WorldPoint>> {
    v.map_values(|s: MapStroke| s@)
}

impl View for MapAnnotation {
    type V = AnnotationModel;

    open spec fn view(&self) -> AnnotationModel {
        match self {
            MapAnnotation::Rectangle(x) => AnnotationModel::Rectangle(*x),
            MapAnnotation::Circle(x) => AnnotationModel::Circle(*x),
            MapAnnotation::Arrow(x) => AnnotationModel::Arrow(*x),
            MapAnnotation::Text(x) => AnnotationModel::Text(x.world_x, x.world_y, x.text@),
            MapAnnotation::Stroke(x) => AnnotationModel::Stroke(x.points@),
            MapAnnotation::StrokeErase(x) => AnnotationModel::StrokeErase(
                x.original.points@,
                stroke_views(x.replacement@),
            ),
        }
    }
}

pub open spec fn annotation_views(v: Seq<MapAnnotation>) -> Seq<AnnotationModel> {
    v.map_values(|a: MapAnnotation| a@)
}

pub open spec fn text_views(v: Seq<MapText>) -> Seq<(u32, u32, Seq<char>)> {
    v.map_values(|t: MapText| t@)
}

pub open spec fn rectangle_eq(a: MapRectangle, b: MapRectangle) -> bool {
    f32_bits_eq(a.min_world_x, b.min_world_x) && f32_bits_eq(a.min_world_y, b.min_world_y)
        && f32_bits_eq(a.max_world_x, b.max_world_x) && f32_bits_eq(a.max_world_y, b.max_world_y)
}

pub open spec fn circle_eq(a: MapCircle, b: MapCircle) -> bool {
    f32_bits_eq(a.center_world_x, b.center_world_x) && f32_bits_eq(
        a.center_world_y,
        b.center_world_y,
    ) && f32_bits_eq(a.radius_world, b.radius_world)
}

pub open spec fn arrow_eq(a: MapArrow, b: MapArrow) -> bool {
    f32_bits_eq(a.start_world_x, b.start_world_x) && f32_bits_eq(a.start_world_y, b.start_world_y)
        && f32_bits_eq(a.end_world_x, b.end_world_x) && f32_bits_eq(a.end_world_y, b.end_world_y)
}

pub open spec fn text_eq(a: (u32, u32, Seq<char>), b: (u32, u32, Seq<char>)) -> bool {
    f32_bits_eq(a.0, b.0) && f32_bits_eq(a.1, b.1) && a.2 == b.2
}

pub open spec fn points_eq(a: Seq<WorldPoint>, b: Seq<WorldPoint>) -> bool {
    a.len() == b.len() && forall|i: int|
        0 <= i < a.len() ==> f32_bits_eq(#[trigger] a[i].0, b[i].0) && f32_bits_eq(a[i].1, b[i].1)
}

pub open spec fn strokes_eq(a: Seq<Seq<WorldPoint>>, b: Seq<Seq<WorldPoint>>) -> bool {
    a.len() == b.len() && forall|i: int| 0 <= i < a.len() ==> points_eq(#[trigger] a[i], b[i])
}

/// Equality of drawings: same kind and equal fields (coordinates compared as floats).
pub open spec fn annotation_eq(a: AnnotationModel, b: AnnotationModel) -> bool {
    match (a, b) {
        (AnnotationModel::Rectangle(x), AnnotationModel::Rectangle(y)) => rectangle_eq(x, y),
        (AnnotationModel::Circle(x), AnnotationModel::Circle(y)) => circle_eq(x, y),
        (AnnotationModel::Arrow(x), AnnotationModel::Arrow(y)) => arrow_eq(x, y),
        (AnnotationModel::Text(x1, y1, t1), AnnotationModel::Text(x2, y2, t2)) => text_eq(
            (x1, y1, t1),
            (x2, y2, t2),
        ),
        (AnnotationModel::Stroke(x), AnnotationModel::Stroke(y)) => points_eq(x, y),
        (AnnotationModel::StrokeErase(o1, r1), AnnotationModel::StrokeErase(o2, r2)) => points_eq(
            o1,
            o2,
        ) && strokes_eq(r1, r2),
        _ => false,
    }
}

pub fn rectangle_equal(a: &MapRectangle, b: &MapRectangle) -> (r: bool)
    ensures
        r == rectangle_eq(*a, *b),
{
    f32_bits_equal(a.min_world_x, b.min_world_x) && f32_bits_equal(a.min_world_y, b.min_world_y)
        && f32_bits_equal(a.max_world_x, b.max_world_x) && f32_bits_equal(
        a.max_world_y,
        b.max_world_y,
    )
}

pub fn circle_equal(a: &MapCircle, b: &MapCircle) -> (r: bool)
    ensures
        r == circle_eq(*a, *b),
{
    f32_bits_equal(a.center_world_x, b.center_world_x) && f32_bits_equal(
        a.center_world_y,
        b.center_world_y,
    ) && f32_bits_equal(a.radius_world, b.radius_world)
}

pub fn arrow_equal(a: &MapArrow, b: &MapArrow) -> (r: bool)
    ensures
        r == arrow_eq(*a, *b),
{
    f32_bits_equal(a.start_world_x, b.start_world_x) && f32_bits_equal(
        a.start_world_y,
        b.start_world_y,
    ) && f32_bits_equal(a.end_world_x, b.end_world_x) && f32_bits_equal(
        a.end_world_y,
        b.end_world_y,
    )
}

pub fn text_equal(a: &MapText, b: &MapText) -> (r: bool)
    ensures
        r == text_eq(a@, b@),
{
    f32_bits_equal(a.world_x, b.world_x) && f32_bits_equal(a.world_y, b.world_y) && a.text == b.text
}

pub fn stroke_equal(a: &MapStroke, b: &MapStroke) -> (r: bool)
    ensures
        r == points_eq(a@, b@),
{
    if a.points.len() != b.points.len() {
        return false;
    }
    let mut i: usize = 0;
    while i < a.points.len()
        invariant
            i <= a.points@.len(),
            a.points@.len() == b.points@.len(),
            forall|j: int|
                0 <= j < i ==> f32_bits_eq(#[trigger] a@[j].0, b@[j].0) && f32_bits_eq(
                    a@[j].1,
                    b@[j].1,
                ),
        decreases a.points@.len() - i,
    {
        let pa = a.points[i];
        let pb = b.points[i];
        let same_x = f32_bits_equal(pa.0, pb.0);
        let same_y = f32_bits_equal(pa.1, pb.1);
        if !(same_x && same_y) {
            return false;
        }
        assert(pa == a@[i as int] && pb == b@[i as int]);
        assert forall|j: int| 0 <= j < i + 1 implies f32_bits_eq(#[trigger] a@[j].0, b@[j].0)
            && f32_bits_eq(a@[j].1, b@[j].1) by {
            if j == i {
                assert(a@[j] == pa);
            }
        }
        i = i + 1;
    }
    true
}

fn strokes_equal(a: &Vec<MapStroke>, b: &Vec<MapStroke>) -> (r: bool)
    ensures
        r == strokes_eq(stroke_views(a@), stroke_views(b@)),
{
    if a.len() != b.len() {
        return false;
    }
    let mut i: usize = 0;
    while i < a.len()
        invariant
            i <= a@.len(),
            a@.len() == b@.len(),
            forall|j: int| 0 <= j < i ==> points_eq(#[trigger] stroke_views(a@)[j], stroke_views(b@)[j]),
        decreases a@.len() - i,
    {
        if !stroke_equal(&a[i], &b[i]) {
            assert(!points_eq(stroke_views(a@)[i as int], stroke_views(b@)[i as int]));
            return false;
        }
        assert(points_eq(stroke_views(a@)[i as int], stroke_views(b@)[i as int]));
        i = i + 1;
    }
    true
}

pub fn annotation_equal(a: &MapAnnotation, b: &MapAnnotation) -> (r: bool)
    ensures
        r == annotation_eq(a@, b@),
{
    match (a, b) {
        (MapAnnotation::Rectangle(x), MapAnnotation::Rectangle(y)) => rectangle_equal(x, y),
        (MapAnnotation::Circle(x), MapAnnotation::Circle(y)) => circle_equal(x, y),
        (MapAnnotation::Arrow(x), MapAnnotation::Arrow(y)) => arrow_equal(x, y),
        (MapAnnotation::Text(x), MapAnnotation::Text(y)) => text_equal(x, y),
        (MapAnnotation::Stroke(x), MapAnnotation::Stroke(y)) => stroke_equal(x, y),
        (MapAnnotation::StrokeErase(x), MapAnnotation::StrokeErase(y)) => stroke_equal(
            &x.original,
            &y.original,
        ) && strokes_equal(&x.replacement, &y.replacement),
        _ => false,
    }
}

impl MapText {
    /// A copy with the same fields.
    pub fn duplicate(&self) -> (r: MapText)
        ensures
            r.world_x == self.world_x,
            r.world_y == self.world_y,
            r.text@ == self.text@,
            r@ == self@,
    {
        MapText { world_x: self.world_x, world_y: self.world_y, text: self.text.clone() }
    }
}

fn duplicate_points(v: &Vec<WorldPoint>) -> (r: Vec<WorldPoint>)
    ensures
        r@ == v@,
{
    let mut r: Vec<WorldPoint> = Vec::new();
    let mut i: usize = 0;
    while i < v.len()
        invariant
            i <= v@.len(),
            r@ == v@.take(i as int),
        decreases v@.len() - i,
    {
        r.push(v[i]);
        i = i + 1;
        assert(r@ =~= v@.take(i as int));
    }
    assert(v@.take(i as int) =~= v@);
    r
}

impl MapStroke {
    pub fn duplicate(&self) -> (r: MapStroke)
        ensures
            r@ == self@,
    {
        let points = duplicate_points(&self.points);
        MapStroke { points }
    }
}

pub fn duplicate_strokes(v: &Vec<MapStroke>) -> (r: Vec<MapStroke>)
    ensures
        stroke_views(r@) == stroke_views(v@),
{
    let mut r: Vec<MapStroke> = Vec::new();
    let mut i: usize = 0;
    while i < v.len()
        invariant
            i <= v@.len(),
            r@.len() == i,
            stroke_views(r@) == stroke_views(v@.take(i as int)),
        decreases v@.len() - i,
    {
        let ghost prev = r@;
        let d = v[i].duplicate();
        r.push(d);
        proof {
            assert forall|k: int| 0 <= k < i + 1 implies #[trigger] stroke_views(r@)[k] == stroke_views(v@.take(i + 1))[k] by {
                if k < i {
                    assert(r@[k] == prev[k]);
                    assert(stroke_views(prev)[k] == stroke_views(v@.take(i as int))[k]);
                }
            }
        }
        i = i + 1;
        assert(stroke_views(r@) =~= stroke_views(v@.take(i as int)));
    }
    assert(v@.take(i as int) =~= v@);
    r
}

impl MapAnnotation {
    pub fn duplicate(&self) -> (r: MapAnnotation)
        ensures
            r@ == self@,
    {
        match self {
            MapAnnotation::Rectangle(x) => MapAnnotation::Rectangle(*x),
            MapAnnotation::Circle(x) => MapAnnotation::Circle(*x),
            MapAnnotation::Arrow(x) => MapAnnotation::Arrow(*x),
            MapAnnotation::Text(x) => MapAnnotation::Text(x.duplicate()),
            MapAnnotation::Stroke(x) => MapAnnotation::Stroke(x.duplicate()),
            MapAnnotation::StrokeErase(x) => MapAnnotation::StrokeErase(
                MapStrokeErase {
                    original: x.original.duplicate(),
                    replacement: duplicate_strokes(&x.replacement),
                },
            ),
        }
    }
}

/// A copy of a list of drawings.
pub fn duplicate_annotations(v: &Vec<MapAnnotation>) -> (r: Vec<MapAnnotation>)
    ensures
        annotation_views(r@) == annotation_views(v@),
{
    let mut r: Vec<MapAnnotation> = Vec::new();
    let mut i: usize = 0;
    while i < v.len()
        invariant
            i <= v@.len(),
            r@.len() == i,
            annotation_views(r@) == annotation_views(v@.take(i as int)),
        decreases v@.len() - i,
    {
        let ghost prev = r@;
        let d = v[i].duplicate();
        r.push(d);
        proof {
            assert forall|k: int| 0 <= k < i + 1 implies #[trigger] annotation_views(r@)[k] == annotation_views(v@.take(i + 1))[k] by {
                if k < i {
                    assert(r@[k] == prev[k]);
                    assert(annotation_views(prev)[k] == annotation_views(v@.take(i as int))[k]);
                }
            }
        }
        i = i + 1;
        assert(annotation_views(r@) =~= annotation_views(v@.take(i as int)));
    }
    assert(v@.take(i as int) =~= v@);
    r
}

/// A copy of a list of texts.
pub fn duplicate_texts(v: &Vec<MapText>) -> (r: Vec<MapText>)
    ensures
        text_views(r@) == text_views(v@),
{
    let mut r: Vec<MapText> = Vec::new();
    let mut i: usize = 0;
    while i < v.len()
        invariant
            i <= v@.len(),
            r@.len() == i,
            text_views(r@) == text_views(v@.take(i as int)),
        decreases v@.len() - i,
    {
        let ghost prev = r@;
        let d = v[i].duplicate();
        r.push(d);
        proof {
            assert forall|k: int| 0 <= k < i + 1 implies #[trigger] text_views(r@)[k] == text_views(v@.take(i + 1))[k] by {
                if k < i {
                    assert(r@[k] == prev[k]);
                    assert(text_views(prev)[k] == text_views(v@.take(i as int))[k]);
                }
            }
        }
        i = i + 1;
        assert(text_views(r@) =~= text_views(v@.take(i as int)));
    }
    assert(v@.take(i as int) =~= v@);
    r
}

/// A copy of a list of values that are copied bit for bit.
pub fn duplicate_copies<T: Copy>(v: &Vec<T>) -> (r: Vec<T>)
    ensures
        r@ == v@,
{
    let mut r: Vec<T> = Vec::new();
    let mut i: usize = 0;
    while i < v.len()
        invariant
            i <= v@.len(),
            r@ == v@.take(i as int),
        decreases v@.len() - i,
    {
        r.push(v[i]);
        i = i + 1;
        assert(r@ =~= v@.take(i as int));
    }
    assert(v@.take(i as int) =~= v@);
    r
}

} // verus!
