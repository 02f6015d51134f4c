//! Outlines of foundation areas on the quantized world grid: the boundary
//! edges along each grid line and the closed contours they form.

use vstd::prelude::*;

verus! {

/// A point of the quantized grid.
pub type GridPoint = (i64, i64);

/// A directed boundary edge between grid points.
pub type GridEdge = (GridPoint, GridPoint);

/// An axis-parallel edge on one grid line: its lower and upper coordinate
/// along the line and its direction (+1 towards the upper end, -1 back).
pub type AxisEdge = (i64, i64, i8);

/// Whether `x` is an end of one of the edges.
pub open spec fn is_endpoint(edges: Seq<AxisEdge>, x: i64) -> bool {
    exists|i: int| 0 <= i < edges.len() && (edges[i].0 == x || edges[i].1 == x)
}

pub open spec fn strictly_increasing(s: Seq<i64>) -> bool {
    forall|i: int, j: int| 0 <= i < j < s.len() ==> s[i] < s[j]
}

/// The edge ends on a line, each once, in increasing order.
pub open spec fn breakpoints(edges: Seq<AxisEdge>) -> Seq<i64> {
    choose|bp: Seq<i64>|
        strictly_increasing(bp) && forall|x: i64| #[trigger] bp.contains(x) <==> is_endpoint(edges, x)
}

/// Two increasing sequences with the same elements are equal.
proof fn lemma_increasing_same_elements(a: Seq<i64>, b: Seq<i64>)
    requires
        strictly_increasing(a),
        strictly_increasing(b),
        forall|x: i64| #[trigger] a.contains(x) <==> b.contains(x),
    ensures
        a == b,
    decreases a.len(),
{
    if a.len() == 0 {
        if b.len() > 0 {
            assert(b.contains(b[0]));
            assert(a.contains(b[0]));
        }
        assert(a =~= b);
    } else {
        assert(a.contains(a[0]));
        assert(b.contains(a[0]));
        let j = choose|j: int| 0 <= j < b.len() && b[j] == a[0];
        assert(b.contains(b[0]));
        assert(a.contains(b[0]));
        let k = choose|k: int| 0 <= k < a.len() && a[k] == b[0];
        assert(a[0] <= a[k]);
        assert(b[0] <= b[j]);
        assert(a[0] == b[0]);
        let a1 = a.skip(1);
        let b1 = b.skip(1);
        assert forall|x: i64| #[trigger] a1.contains(x) <==> b1.contains(x) by {
            if a1.contains(x) {
                let i = choose|i: int| 0 <= i < a1.len() && a1[i] == x;
                assert(a[i + 1] == x);
                assert(a.contains(x));
                assert(b.contains(x));
                let m = choose|m: int| 0 <= m < b.len() && b[m] == x;
                if m == 0 {
                    assert(a[0] < a[i + 1]);
                }
                assert(b1[m - 1] == x);
            }
            if b1.contains(x) {
                let i = choose|i: int| 0 <= i < b1.len() && b1[i] == x;
                assert(b[i + 1] == x);
                assert(b.contains(x));
                assert(a.contains(x));
                let m = choose|m: int| 0 <= m < a.len() && a[m] == x;
                if m == 0 {
                    assert(b[0] < b[i + 1]);
                }
                assert(a1[m - 1] == x);
            }
        }
        lemma_increasing_same_elements(a1, b1);
        assert(a =~= seq![a[0]] + a1);
        assert(b =~= seq![b[0]] + b1);
    }
}

/// Inserts `x` into an increasing sequence unless it is there already.
fn insert_sorted_unique(v: &mut Vec<i64>, x: i64)
    requires
        strictly_increasing(old(v)@),
    ensures
        strictly_increasing(final(v)@),
        forall|y: i64| #[trigger] final(v)@.contains(y) <==> (old(v)@.contains(y) || y == x),
{
    let mut i: usize = 0;
    while i < v.len() && v[i] < x
        invariant
            i <= v@.len(),
            forall|j: int| 0 <= j < i ==> v@[j] < x,
        decreases v@.len() - i,
    {
        i = i + 1;
    }
    if i < v.len() && v[i] == x {
        return;
    }
    let ghost before = v@;
    v.insert(i, x);
    proof {
        assert forall|a: int, b: int| 0 <= a < b < v@.len() implies v@[a] < v@[b] by {
            if b < i {
            } else if a < i && b == i {
            } else if a < i {
                assert(v@[b] == before[b - 1]);
                if i < before.len() {
                    assert(before[i as int] > x);
                    assert(before[i as int] <= before[b - 1]);
                }
            } else if a == i {
                assert(v@[b] == before[b - 1]);
                assert(before[i as int] > x);
                assert(before[i as int] <= before[b - 1]);
            } else {
                assert(v@[a] == before[a - 1]);
                assert(v@[b] == before[b - 1]);
            }
        }
        assert forall|y: i64| #[trigger] v@.contains(y) <==> (before.contains(y) || y == x) by {
            if v@.contains(y) {
                let k = choose|k: int| 0 <= k < v@.len() && v@[k] == y;
                if k < i {
                    assert(before[k] == y);
                } else if k > i {
                    assert(before[k - 1] == y);
                }
            }
            if before.contains(y) {
                let k = choose|k: int| 0 <= k < before.len() && before[k] == y;
                if k < i {
                    assert(v@[k] == y);
                } else {
                    assert(v@[k + 1] == y);
                }
            }
            if y == x {
                assert(v@[i as int] == y);
            }
        }
    }
}

/// The edge ends of one line, sorted and without repeats.
fn sorted_breakpoints(edges: &Vec<AxisEdge>) -> (bp: Vec<i64>)
    ensures
        strictly_increasing(bp@),
        bp@ == breakpoints(edges@),
{
    let mut bp: Vec<i64> = Vec::new();
    let mut i: usize = 0;
    while i < edges.len()
        invariant
            i <= edges@.len(),
            strictly_increasing(bp@),
            forall|x: i64| #[trigger]
                bp@.contains(x) <==> is_endpoint(edges@.take(i as int), x),
        decreases edges@.len() - i,
    {
        let e = edges[i];
        insert_sorted_unique(&mut bp, e.0);
        insert_sorted_unique(&mut bp, e.1);
        proof {
            assert forall|x: i64| #[trigger]
                bp@.contains(x) <==> is_endpoint(edges@.take(i + 1), x) by {
                let t = edges@.take(i + 1);
                if is_endpoint(t, x) {
                    let k = choose|k: int| 0 <= k < t.len() && (t[k].0 == x || t[k].1 == x);
                    if k < i {
                        assert(edges@.take(i as int)[k] == t[k]);
                    }
                }
                if is_endpoint(edges@.take(i as int), x) {
                    let k = choose|k: int|
                        0 <= k < i && (edges@.take(i as int)[k].0 == x || edges@.take(
                            i as int,
                        )[k].1 == x);
                    assert(t[k] == edges@.take(i as int)[k]);
                }
                if x == e.0 || x == e.1 {
                    assert(t[i as int] == e);
                }
            }
        }
        i = i + 1;
    }
    proof {
        assert(edges@.take(i as int) =~= edges@);
        let chosen = breakpoints(edges@);
        assert(strictly_increasing(bp@) && forall|x: i64| #[trigger]
            bp@.contains(x) <==> is_endpoint(edges@, x));
        lemma_increasing_same_elements(bp@, chosen);
    }
    bp
}

/// The net direction of the edges that cover the open interval between
/// `left` and `right` (those strictly around its midpoint).
pub open spec fn winding(edges: Seq<AxisEdge>, left: int, right: int) -> int
    decreases edges.len(),
{
    if edges.len() == 0 {
        0
    } else {
        let e = edges.last();
        winding(edges.drop_last(), left, right) + if 2 * e.0 < left + right && left + right < 2
            * e.1 {
            e.2 as int
        } else {
            0int
        }
    }
}

fn winding_exec(edges: &Vec<AxisEdge>, left: i64, right: i64) -> (w: i128)
    ensures
        w == winding(edges@, left as int, right as int),
{
    let mut sum: i128 = 0;
    let mut i: usize = 0;
    let twice_mid = left as i128 + right as i128;
    let n = edges.len();
    while i < n
        invariant
            i <= edges@.len(),
            twice_mid == left + right,
            sum == winding(edges@.take(i as int), left as int, right as int),
            -128 * i <= sum <= 127 * i,
            n == edges@.len(),
        decreases edges@.len() - i,
    {
        let e = edges[i];
        proof {
            assert(edges@.take(i + 1).drop_last() =~= edges@.take(i as int));
        }
        if 2 * (e.0 as i128) < twice_mid && twice_mid < 2 * (e.1 as i128) {
            sum = sum + e.2 as i128;
        }
        i = i + 1;
    }
    assert(edges@.take(i as int) =~= edges@);
    sum
}

/// The boundary edges of one line from breakpoint `k` on: each interval
/// between neighbouring breakpoints with a non-zero winding becomes an edge,
/// directed by the winding's sign.
pub open spec fn line_boundary_from(
    line: i64,
    edges: Seq<AxisEdge>,
    bp: Seq<i64>,
    horizontal: bool,
    k: int,
) -> Seq<GridEdge>
    decreases bp.len() - k,
{
    if k < 0 || k + 1 >= bp.len() {
        Seq::empty()
    } else {
        let left = bp[k];
        let right = bp[k + 1];
        let w = winding(edges, left as int, right as int);
        let rest = line_boundary_from(line, edges, bp, horizontal, k + 1);
        if w == 0 {
            rest
        } else {
            let (start, end) = if w > 0 {
                (left, right)
            } else {
                (right, left)
            };
            let edge = if horizontal {
                ((start, line), (end, line))
            } else {
                ((line, start), (line, end))
            };
            seq![edge] + rest
        }
    }
}

/// The boundary edges along one grid line.
pub open spec fn line_boundary(line: i64, edges: Seq<AxisEdge>, horizontal: bool) -> Seq<GridEdge> {
    line_boundary_from(line, edges, breakpoints(edges), horizontal, 0)
}

/// The boundary edges of the lines, line after line.
pub open spec fn lines_boundary(lines: Seq<(i64, Vec<AxisEdge>)>, horizontal: bool) -> Seq<
    GridEdge,
>
    decreases lines.len(),
{
    if lines.len() == 0 {
        Seq::empty()
    } else {
        lines_boundary(lines.drop_last(), horizontal) + line_boundary(
            lines.last().0,
            lines.last().1@,
            horizontal,
        )
    }
}

/// Along each grid line (the `y` of horizontal lines, the `x` of vertical
/// ones), collects the stretches where the foundation edges on that line do
/// not cancel out: those stretches are the outline. Their direction follows
/// the edges that remain, so the outline keeps its orientation.
pub fn collect_axis_boundary_edges(lines: &Vec<(i64, Vec<AxisEdge>)>, horizontal: bool) -> (result:
    Vec<GridEdge>)
    ensures
        result@ == lines_boundary(lines@, horizontal),
{
    let mut result: Vec<GridEdge> = Vec::new();
    let mut li: usize = 0;
    while li < lines.len()
        invariant
            li <= lines@.len(),
            result@ == lines_boundary(lines@.take(li as int), horizontal),
        decreases lines@.len() - li,
    {
        let line = lines[li].0;
        let edges = &lines[li].1;
        let points = sorted_breakpoints(edges);
        let ghost base = result@;
        let mut k: usize = 0;
        let count = points.len();
        while count > 0 && k < count - 1
            invariant
                count == points@.len(),
                k <= points@.len(),
                points@ == breakpoints(edges@),
                strictly_increasing(points@),
                base + line_boundary(line, edges@, horizontal) == result@ + line_boundary_from(
                    line,
                    edges@,
                    points@,
                    horizontal,
                    k as int,
                ),
            decreases points@.len() - k,
        {
            let left = points[k];
            let right = points[k + 1];
            let direction_sum = winding_exec(edges, left, right);
            let ghost before = result@;
            if direction_sum != 0 {
                let (start, end) = if direction_sum > 0 {
                    (left, right)
                } else {
                    (right, left)
                };
                if horizontal {
                    result.push(((start, line), (end, line)));
                } else {
                    result.push(((line, start), (line, end)));
                }
                proof {
                    let rest = line_boundary_from(line, edges@, points@, horizontal, k + 1);
                    let e = result@.last();
                    assert(before + (seq![e] + rest) =~= result@ + rest);
                }
            }
            k = k + 1;
        }
        proof {
            assert(line_boundary_from(line, edges@, points@, horizontal, k as int)
                =~= Seq::<GridEdge>::empty());
            assert(result@ + Seq::<GridEdge>::empty() =~= result@);
            assert(lines@.take(li + 1).drop_last() =~= lines@.take(li as int));
            assert(lines@.take(li + 1).last() == lines@[li as int]);
        }
        li = li + 1;
    }
    assert(lines@.take(li as int) =~= lines@);
    result
}

/// The lowest index from `k` on of an unused edge that starts at `p`.
pub open spec fn first_unused_from(edges: Seq<GridEdge>, used: Seq<bool>, p: GridPoint, k: int) -> Option<
    int,
>
    decreases edges.len() - k,
{
    if k < 0 || k >= edges.len() {
        None
    } else if !used[k] && edges[k].0 == p {
        Some(k)
    } else {
        first_unused_from(edges, used, p, k + 1)
    }
}

/// Follows edges from `current`: marks each as used and appends its end
/// point (and, on the first edge, its start), until it returns to `start`,
/// meets a used edge, finds no unused edge going on, or `steps` run out;
/// where several unused edges go on, the one with the lowest index is taken.
pub open spec fn walk(
    edges: Seq<GridEdge>,
    used: Seq<bool>,
    current: int,
    start: GridPoint,
    contour: Seq<GridPoint>,
    steps: nat,
) -> (Seq<bool>, Seq<GridPoint>)
    decreases steps,
{
    if steps == 0 || current < 0 || current >= edges.len() || used[current] {
        (used, contour)
    } else {
        let used2 = used.update(current, true);
        let (from, to) = edges[current];
        let opened: Seq<GridPoint> = if contour.len() == 0 {
            seq![from]
        } else {
            contour
        };
        let extended = opened.push(to);
        if to == start {
            (used2, extended)
        } else {
            match first_unused_from(edges, used2, to, 0) {
                None => (used2, extended),
                Some(next) => walk(edges, used2, next, start, extended, (steps - 1) as nat),
            }
        }
    }
}

/// Starting from each edge not yet used, in index order, walks a contour;
/// walks that come back to their first point (and have at least three
/// corners) are kept, without the repeated closing point.
pub open spec fn trace_from(
    edges: Seq<GridEdge>,
    used: Seq<bool>,
    contours: Seq<Seq<GridPoint>>,
    i: int,
) -> Seq<Seq<GridPoint>>
    decreases edges.len() - i,
{
    if i < 0 || i >= edges.len() {
        contours
    } else if used[i] {
        trace_from(edges, used, contours, i + 1)
    } else {
        let (used2, c) = walk(edges, used, i, edges[i].0, Seq::empty(), edges.len());
        let kept = if c.len() >= 4 && c.last() == c.first() {
            contours.push(c.drop_last())
        } else {
            contours
        };
        trace_from(edges, used2, kept, i + 1)
    }
}

/// The closed contours that the boundary edges form.
pub open spec fn traced_contours(edges: Seq<GridEdge>) -> Seq<Seq<GridPoint>> {
    trace_from(edges, Seq::new(edges.len(), |k: int| false), Seq::empty(), 0)
}

pub open spec fn contour_views(c: Seq<Vec<GridPoint>>) -> Seq<Seq<GridPoint>> {
    c.map_values(|v: Vec<GridPoint>| v@)
}

fn same_point(a: GridPoint, b: GridPoint) -> (r: bool)
    ensures
        r == (a == b),
{
    a.0 == b.0 && a.1 == b.1
}

fn first_unused(edges: &Vec<GridEdge>, used: &Vec<bool>, p: GridPoint) -> (r: Option<usize>)
    requires
        used@.len() == edges@.len(),
    ensures
        match first_unused_from(edges@, used@, p, 0) {
            Some(k) => r matches Some(x) && x as int == k && k < edges@.len(),
            None => r is None,
        },
{
    let mut k: usize = 0;
    while k < edges.len()
        invariant
            k <= edges@.len(),
            used@.len() == edges@.len(),
            first_unused_from(edges@, used@, p, 0) == first_unused_from(edges@, used@, p, k as int),
        decreases edges@.len() - k,
    {
        if !used[k] && same_point(edges[k].0, p) {
            return Some(k);
        }
        k = k + 1;
    }
    None
}

/// Joins the boundary edges into closed contours of grid points.
pub fn trace_foundation_contours(edges: &Vec<GridEdge>) -> (contours: Vec<Vec<GridPoint>>)
    ensures
        contour_views(contours@) == traced_contours(edges@),
{
    let n = edges.len();
    let mut used: Vec<bool> = Vec::new();
    let mut f: usize = 0;
    while f < n
        invariant
            f <= n,
            n == edges@.len(),
            used@.len() == f,
            forall|k: int| 0 <= k < f ==> !used@[k],
        decreases n - f,
    {
        used.push(false);
        f = f + 1;
    }
    assert(used@ =~= Seq::new(edges@.len(), |k: int| false));
    let mut contours: Vec<Vec<GridPoint>> = Vec::new();
    let mut start_index: usize = 0;
    assert(contour_views(contours@) =~= Seq::<Seq<GridPoint>>::empty());
    while start_index < n
        invariant
            start_index <= n,
            n == edges@.len(),
            used@.len() == n,
            traced_contours(edges@) == trace_from(
                edges@,
                used@,
                contour_views(contours@),
                start_index as int,
            ),
        decreases n - start_index,
    {
        if used[start_index] {
            start_index = start_index + 1;
            continue;
        }
        let ghost used_before = used@;
        let start = edges[start_index].0;
        let mut current_index = start_index;
        let mut contour: Vec<GridPoint> = Vec::new();
        let mut steps: usize = 0;
        while steps < n
            invariant
                steps <= n,
                n == edges@.len(),
                used@.len() == n,
                current_index < n,
                walk(edges@, used_before, start_index as int, start, Seq::empty(), n as nat) == walk(
                    edges@,
                    used@,
                    current_index as int,
                    start,
                    contour@,
                    (n - steps) as nat,
                ),
            ensures
                used@.len() == n,
                walk(edges@, used_before, start_index as int, start, Seq::empty(), n as nat) == (
                used@,
                contour@,
                ),
            decreases n - steps,
        {
            if used[current_index] {
                break;
            }
            let ghost used_old = used@;
            let ghost contour_old = contour@;
            let ghost cur = current_index as int;
            let ghost steps_left = (n - steps) as nat;
            used.set(current_index, true);
            let (edge_start, edge_end) = edges[current_index];
            if contour.len() == 0 {
                contour.push(edge_start);
            }
            contour.push(edge_end);
            proof {
                let opened: Seq<GridPoint> = if contour_old.len() == 0 {
                    seq![edge_start]
                } else {
                    contour_old
                };
                assert(contour@ =~= opened.push(edge_end));
                assert(used@ =~= used_old.update(cur, true));
            }
            if same_point(edge_end, start) {
                assert(walk(edges@, used_old, cur, start, contour_old, steps_left) == (used@, contour@));
                break;
            }
            let next = first_unused(edges, &used, edge_end);
            match next {
                Some(next_index) => {
                    current_index = next_index;
                },
                None => {
                    assert(walk(edges@, used_old, cur, start, contour_old, steps_left) == (used@, contour@));
                    break;
                },
            }
            steps = steps + 1;
        }
        let ghost walked = walk(edges@, used_before, start_index as int, start, Seq::empty(), n as nat);
        assert(walked == (used@, contour@));
        let ghost views_before = contour_views(contours@);
        let closed = contour.len() >= 4 && same_point(contour[contour.len() - 1], contour[0]);
        if closed {
            contour.pop();
            contours.push(contour);
            assert(contour_views(contours@) =~= views_before.push(walked.1.drop_last()));
        }
        start_index = start_index + 1;
    }
    contours
}

/// The four sides of each foundation, in order, each from a corner to the next.
pub open spec fn quad_edges(quads: Seq<[GridPoint; 4]>) -> Seq<GridEdge>
    decreases quads.len(),
{
    if quads.len() == 0 {
        Seq::empty()
    } else {
        let q = quads.last();
        quad_edges(quads.drop_last()) + seq![
            (q@[0], q@[1]),
            (q@[1], q@[2]),
            (q@[2], q@[3]),
            (q@[3], q@[0]),
        ]
    }
}

/// The lines with their edges, as mathematical values.
pub open spec fn line_views(lines: Seq<(i64, Vec<AxisEdge>)>) -> Seq<(i64, Seq<AxisEdge>)> {
    lines.map_values(|l: (i64, Vec<AxisEdge>)| (l.0, l.1@))
}

/// The index of the entry for `line`, if any.
pub open spec fn find_line(lines: Seq<(i64, Seq<AxisEdge>)>, line: i64) -> Option<int> {
    if exists|k: int| 0 <= k < lines.len() && lines[k].0 == line {
        Some(choose|k: int| 0 <= k < lines.len() && lines[k].0 == line)
    } else {
        None
    }
}

/// Adds an edge to the entry of its line, or a new entry at the end.
pub open spec fn add_to_line(lines: Seq<(i64, Seq<AxisEdge>)>, line: i64, item: AxisEdge) -> Seq<
    (i64, Seq<AxisEdge>),
> {
    match find_line(lines, line) {
        Some(k) => lines.update(k, (line, lines[k].1.push(item))),
        None => lines.push((line, seq![item])),
    }
}

/// A sloped edge cancels its reverse where that was seen; otherwise it is
/// kept once.
pub open spec fn toggle_edge(edges: Seq<GridEdge>, e: GridEdge) -> Seq<GridEdge> {
    let reverse = (e.1, e.0);
    if edges.contains(reverse) {
        edges.remove(edges.index_of_first(reverse)->Some_0)
    } else if edges.contains(e) {
        edges
    } else {
        edges.push(e)
    }
}

/// The interval an axis edge covers on its line, with its direction.
pub open spec fn axis_item(a: i64, b: i64) -> AxisEdge {
    if a < b {
        (a, b, 1i8)
    } else {
        (b, a, -1i8)
    }
}

/// Sorts the sides into horizontal lines, vertical lines and sloped edges.
pub open spec fn classify(edges: Seq<GridEdge>) -> (
    Seq<(i64, Seq<AxisEdge>)>,
    Seq<(i64, Seq<AxisEdge>)>,
    Seq<GridEdge>,
)
    decreases edges.len(),
{
    if edges.len() == 0 {
        (Seq::empty(), Seq::empty(), Seq::empty())
    } else {
        let (h, v, g) = classify(edges.drop_last());
        let (st, en) = edges.last();
        if st == en {
            (h, v, g)
        } else if st.1 == en.1 {
            (add_to_line(h, st.1, axis_item(st.0, en.0)), v, g)
        } else if st.0 == en.0 {
            (h, add_to_line(v, st.0, axis_item(st.1, en.1)), g)
        } else {
            (h, v, toggle_edge(g, (st, en)))
        }
    }
}

/// The edge sets of foundations whose corners are on the grid.
pub struct FoundationEdges {
    pub horizontal: Vec<(i64, Vec<AxisEdge>)>,
    pub vertical: Vec<(i64, Vec<AxisEdge>)>,
    pub sloped: Vec<GridEdge>,
}

fn line_index(lines: &Vec<(i64, Vec<AxisEdge>)>, line: i64) -> (r: Option<usize>)
    ensures
        match r {
            Some(k) => k < lines@.len() && lines@[k as int].0 == line,
            None => forall|k: int| 0 <= k < lines@.len() ==> lines@[k].0 != line,
        },
{
    let mut k: usize = 0;
    while k < lines.len()
        invariant
            k <= lines@.len(),
            forall|j: int| 0 <= j < k ==> lines@[j].0 != line,
        decreases lines@.len() - k,
    {
        if lines[k].0 == line {
            return Some(k);
        }
        k = k + 1;
    }
    None
}

/// Lines hold each line number once.
pub open spec fn distinct_lines(lines: Seq<(i64, Seq<AxisEdge>)>) -> bool {
    forall|a: int, b: int| 0 <= a < b < lines.len() ==> lines[a].0 != lines[b].0
}

fn add_edge_to_line(lines: &mut Vec<(i64, Vec<AxisEdge>)>, line: i64, item: AxisEdge)
    requires
        distinct_lines(line_views(old(lines)@)),
    ensures
        distinct_lines(line_views(final(lines)@)),
        line_views(final(lines)@) == add_to_line(line_views(old(lines)@), line, item),
{
    let ghost lv = line_views(lines@);
    match line_index(lines, line) {
        Some(k) => {
            proof {
                assert(lv[k as int].0 == line);
                let c = choose|c: int| 0 <= c < lv.len() && lv[c].0 == line;
                assert(c == k);
            }
            let mut entry = lines.remove(k);
            entry.1.push(item);
            lines.insert(k, entry);
            assert(line_views(lines@) =~= lv.update(k as int, (line, lv[k as int].1.push(item))));
        },
        None => {
            proof {
                assert forall|c: int| 0 <= c < lv.len() implies lv[c].0 != line by {
                    assert(lv[c].0 == lines@[c].0);
                }
            }
            let mut fresh: Vec<AxisEdge> = Vec::new();
            fresh.push(item);
            assert(fresh@ =~= seq![item]);
            lines.push((line, fresh));
            assert(line_views(lines@) =~= lv.push((line, seq![item])));
        },
    }
}

fn same_edge(a: GridEdge, b: GridEdge) -> (r: bool)
    ensures
        r == (a == b),
{
    a.0.0 == b.0.0 && a.0.1 == b.0.1 && a.1.0 == b.1.0 && a.1.1 == b.1.1
}

fn edge_index(edges: &Vec<GridEdge>, e: GridEdge) -> (r: Option<usize>)
    ensures
        match r {
            Some(k) => k < edges@.len() && edges@[k as int] == e && forall|j: int|
                0 <= j < k ==> edges@[j] != e,
            None => !edges@.contains(e),
        },
{
    let mut k: usize = 0;
    while k < edges.len()
        invariant
            k <= edges@.len(),
            forall|j: int| 0 <= j < k ==> edges@[j] != e,
        decreases edges@.len() - k,
    {
        if same_edge(edges[k], e) {
            return Some(k);
        }
        k = k + 1;
    }
    None
}

fn toggle_sloped(edges: &mut Vec<GridEdge>, e: GridEdge)
    ensures
        final(edges)@ == toggle_edge(old(edges)@, e),
{
    let ghost before = edges@;
    let reverse = (e.1, e.0);
    match edge_index(edges, reverse) {
        Some(k) => {
            proof {
                assert(before.contains(reverse));
                before.index_of_first_ensures(reverse);
                let f = before.index_of_first(reverse)->Some_0;
                assert(before[f] == reverse);
                if f < k {
                    assert(before[f] != reverse);
                }
                if f > k {
                    assert(before[k as int] == reverse);
                }
            }
            edges.remove(k);
        },
        None => {
            match edge_index(edges, e) {
                Some(_) => {},
                None => {
                    edges.push(e);
                },
            }
        },
    }
}

fn push_axis(lines: &mut Vec<(i64, Vec<AxisEdge>)>, line: i64, a: i64, b: i64)
    requires
        distinct_lines(line_views(old(lines)@)),
    ensures
        distinct_lines(line_views(final(lines)@)),
        line_views(final(lines)@) == add_to_line(line_views(old(lines)@), line, axis_item(a, b)),
{
    let item: AxisEdge = if a < b {
        (a, b, 1i8)
    } else {
        (b, a, -1i8)
    };
    add_edge_to_line(lines, line, item);
}

/// Sorts the sides of grid-aligned foundations: edges along horizontal
/// lines, edges along vertical lines (both per line, with direction), and
/// sloped edges, where a sloped edge and its reverse cancel out.
pub fn foundation_edges(quads: &Vec<[GridPoint; 4]>) -> (r: FoundationEdges)
    ensures
        (line_views(r.horizontal@), line_views(r.vertical@), r.sloped@) == classify(
            quad_edges(quads@),
        ),
{
    let mut horizontal: Vec<(i64, Vec<AxisEdge>)> = Vec::new();
    let mut vertical: Vec<(i64, Vec<AxisEdge>)> = Vec::new();
    let mut sloped: Vec<GridEdge> = Vec::new();
    let mut qi: usize = 0;
    assert(line_views(horizontal@) =~= Seq::<(i64, Seq<AxisEdge>)>::empty());
    assert(line_views(vertical@) =~= Seq::<(i64, Seq<AxisEdge>)>::empty());
    while qi < quads.len()
        invariant
            qi <= quads@.len(),
            distinct_lines(line_views(horizontal@)),
            distinct_lines(line_views(vertical@)),
            (line_views(horizontal@), line_views(vertical@), sloped@) == classify(
                quad_edges(quads@.take(qi as int)),
            ),
        decreases quads@.len() - qi,
    {
        let quad = quads[qi];
        let ghost done = quad_edges(quads@.take(qi as int));
        let mut k: usize = 0;
        while k < 4
            invariant
                k <= 4,
                quad == quads@[qi as int],
                distinct_lines(line_views(horizontal@)),
                distinct_lines(line_views(vertical@)),
                (line_views(horizontal@), line_views(vertical@), sloped@) == classify(
                    done + Seq::new(k as nat, |j: int| (quad@[j], quad@[(j + 1) % 4])),
                ),
            decreases 4 - k,
        {
            let start = quad[k];
            let end = quad[(k + 1) % 4];
            let ghost prefix = done + Seq::new(k as nat, |j: int| (quad@[j], quad@[(j + 1) % 4]));
            let ghost next = done + Seq::new((k + 1) as nat, |j: int| (quad@[j], quad@[(j + 1) % 4]));
            assert(next.drop_last() =~= prefix);
            assert(next.last() == (start, end));
            if same_point(start, end) {
            } else if start.1 == end.1 {
                push_axis(&mut horizontal, start.1, start.0, end.0);
            } else if start.0 == end.0 {
                push_axis(&mut vertical, start.0, start.1, end.1);
            } else {
                toggle_sloped(&mut sloped, (start, end));
            }
            k = k + 1;
        }
        proof {
            let q = quads@[qi as int];
            assert(quads@.take(qi + 1).drop_last() =~= quads@.take(qi as int));
            assert(quads@.take(qi + 1).last() == q);
            assert(Seq::new(4, |j: int| (quad@[j], quad@[(j + 1) % 4])) =~= seq![
                (q@[0], q@[1]),
                (q@[1], q@[2]),
                (q@[2], q@[3]),
                (q@[3], q@[0]),
            ]);
        }
        qi = qi + 1;
    }
    assert(quads@.take(qi as int) =~= quads@);
    FoundationEdges { horizontal, vertical, sloped }
}

/// The outline edges of grid-aligned foundations: the uncancelled stretches
/// of the horizontal lines, then of the vertical lines, then the sloped
/// edges that remain.
pub open spec fn outline_edges(quads: Seq<[GridPoint; 4]>) -> Seq<GridEdge> {
    let (h, v, g) = classify(quad_edges(quads));
    lines_boundary_views(h, true) + lines_boundary_views(v, false) + g
}

/// `lines_boundary` over lines given as mathematical values.
pub open spec fn lines_boundary_views(lines: Seq<(i64, Seq<AxisEdge>)>, horizontal: bool) -> Seq<
    GridEdge,
>
    decreases lines.len(),
{
    if lines.len() == 0 {
        Seq::empty()
    } else {
        lines_boundary_views(lines.drop_last(), horizontal) + line_boundary(
            lines.last().0,
            lines.last().1,
            horizontal,
        )
    }
}

proof fn lemma_lines_boundary_views(lines: Seq<(i64, Vec<AxisEdge>)>, horizontal: bool)
    ensures
        lines_boundary(lines, horizontal) == lines_boundary_views(line_views(lines), horizontal),
    decreases lines.len(),
{
    if lines.len() > 0 {
        lemma_lines_boundary_views(lines.drop_last(), horizontal);
        assert(line_views(lines.drop_last()) =~= line_views(lines).drop_last());
    }
}

/// The closed outlines of the foundation areas, with corners on the grid:
/// touching foundations merge into one outline, separate areas keep their own.
pub fn foundation_outlines(quads: &Vec<[GridPoint; 4]>) -> (contours: Vec<Vec<GridPoint>>)
    ensures
        contour_views(contours@) == traced_contours(outline_edges(quads@)),
{
    let sets = foundation_edges(quads);
    let mut edges = collect_axis_boundary_edges(&sets.horizontal, true);
    let mut vertical = collect_axis_boundary_edges(&sets.vertical, false);
    let mut sloped = sets.sloped;
    proof {
        lemma_lines_boundary_views(sets.horizontal@, true);
        lemma_lines_boundary_views(sets.vertical@, false);
    }
    edges.append(&mut vertical);
    edges.append(&mut sloped);
    trace_foundation_contours(&edges)
}

/// The largest coordinate magnitude for which the corner test below is
/// computed exactly in 128-bit arithmetic.
pub const GRID_COORDINATE_LIMIT: i64 = 0x4000_0000_0000_0000;

/// Every point's coordinates lie strictly inside the coordinate limit.
pub open spec fn within_grid_limit(c: Seq<GridPoint>) -> bool {
    forall|i: int|
        0 <= i < c.len() ==> -GRID_COORDINATE_LIMIT < (#[trigger] c[i]).0 < GRID_COORDINATE_LIMIT
            && -GRID_COORDINATE_LIMIT < c[i].1 < GRID_COORDINATE_LIMIT
}

/// How sharply the outline turns at its `i`-th point: the cross product of
/// the edge into the point and the edge out of it (the outline is closed,
/// so the first point follows the last).
pub open spec fn turn(c: Seq<GridPoint>, i: int) -> int {
    let n = c.len() as int;
    let previous = c[(i + n - 1) % n];
    let current = c[i];
    let next = c[(i + 1) % n];
    (current.0 - previous.0) * (next.1 - current.1) - (current.1 - previous.1) * (next.0
        - current.0)
}

/// The point is a corner: the outline turns there by more than 100 square
/// grid units (0.01 square world units at 100 grid units per world unit).
pub open spec fn is_corner(c: Seq<GridPoint>, i: int) -> bool {
    turn(c, i) > 100 || turn(c, i) < -100
}

/// The corners among the first `k` points, in order.
pub open spec fn corners_upto(c: Seq<GridPoint>, k: int) -> Seq<GridPoint>
    decreases k,
{
    if k <= 0 {
        Seq::empty()
    } else {
        let before = corners_upto(c, k - 1);
        if is_corner(c, k - 1) {
            before.push(c[k - 1])
        } else {
            before
        }
    }
}

/// An outline without the points where it runs straight on; an outline
/// with fewer than three points, or with fewer than three corners, stays
/// as it is.
pub open spec fn spec_simplify_outline(c: Seq<GridPoint>) -> Seq<GridPoint> {
    if c.len() < 3 {
        c
    } else if corners_upto(c, c.len() as int).len() >= 3 {
        corners_upto(c, c.len() as int)
    } else {
        c
    }
}

/// The outline reflected across the vertical axis (x becomes -x).
pub open spec fn mirror_outline(c: Seq<GridPoint>) -> Seq<GridPoint> {
    c.map_values(|p: GridPoint| ((-p.0) as i64, p.1))
}

proof fn lemma_mirror_turn(c: Seq<GridPoint>, i: int)
    requires
        within_grid_limit(c),
        0 <= i < c.len(),
    ensures
        turn(mirror_outline(c), i) == -turn(c, i),
{
    let n = c.len() as int;
    let m = mirror_outline(c);
    let ip = (i + n - 1) % n;
    let iq = (i + 1) % n;
    assert(0 <= ip < n && 0 <= iq < n) by (nonlinear_arith)
        requires
            0 <= i < n,
            ip == (i + n - 1) % n,
            iq == (i + 1) % n,
    ;
    assert(m[ip].0 == -c[ip].0 && m[ip].1 == c[ip].1);
    assert(m[i].0 == -c[i].0 && m[i].1 == c[i].1);
    assert(m[iq].0 == -c[iq].0 && m[iq].1 == c[iq].1);
    let (px, py, cx, cy, qx, qy) = (
        c[ip].0 as int,
        c[ip].1 as int,
        c[i].0 as int,
        c[i].1 as int,
        c[iq].0 as int,
        c[iq].1 as int,
    );
    assert((-cx - -px) * (qy - cy) - (cy - py) * (-qx - -cx) == -((cx - px) * (qy - cy) - (cy
        - py) * (qx - cx))) by (nonlinear_arith);
}

proof fn lemma_mirror_corners(c: Seq<GridPoint>, k: int)
    requires
        within_grid_limit(c),
        0 <= k <= c.len(),
    ensures
        corners_upto(mirror_outline(c), k) == mirror_outline(corners_upto(c, k)),
    decreases k,
{
    if k > 0 {
        lemma_mirror_corners(c, k - 1);
        lemma_mirror_turn(c, k - 1);
        assert(mirror_outline(corners_upto(c, k - 1)).push(mirror_outline(c)[k - 1])
            =~= mirror_outline(corners_upto(c, k - 1).push(c[k - 1])));
    }
}

/// Simplifying does not depend on the outline's orientation: simplifying
/// the mirrored outline gives the mirrored simplified outline. Left turns
/// and right turns (convex and concave corners) are kept alike.
pub proof fn law_simplify_commutes_with_mirroring(c: Seq<GridPoint>)
    requires
        within_grid_limit(c),
    ensures
        spec_simplify_outline(mirror_outline(c)) == mirror_outline(spec_simplify_outline(c)),
{
    lemma_mirror_corners(c, c.len() as int);
}

proof fn lemma_corners_upto_contains(c: Seq<GridPoint>, k: int, i: int)
    requires
        0 <= i < k <= c.len(),
        is_corner(c, i),
    ensures
        corners_upto(c, k).contains(c[i]),
    decreases k,
{
    if i < k - 1 {
        lemma_corners_upto_contains(c, k - 1, i);
        let before = corners_upto(c, k - 1);
        let j = choose|j: int| 0 <= j < before.len() && before[j] == c[i];
        if is_corner(c, k - 1) {
            assert(before.push(c[k - 1])[j] == c[i]);
        }
    } else {
        assert(corners_upto(c, k) == corners_upto(c, k - 1).push(c[k - 1]));
        assert(corners_upto(c, k)[corners_upto(c, k - 1).len() as int] == c[i]);
    }
}

/// Every point where the outline turns, to the left or to the right, by
/// more than 100 square grid units stays in the simplified outline.
pub proof fn law_turning_points_are_kept(c: Seq<GridPoint>, i: int)
    requires
        0 <= i < c.len(),
        turn(c, i) > 100 || turn(c, i) < -100,
    ensures
        spec_simplify_outline(c).contains(c[i]),
{
    if c.len() >= 3 {
        lemma_corners_upto_contains(c, c.len() as int, i);
    }
    assert(c[i] == c[i]);
}

fn turn_of(contour: &Vec<GridPoint>, i: usize) -> (r: i128)
    requires
        within_grid_limit(contour@),
        i < contour@.len(),
    ensures
        r == turn(contour@, i as int),
{
    let n = contour.len();
    let p = if i == 0 {
        n - 1
    } else {
        i - 1
    };
    let q = if i + 1 == n {
        0
    } else {
        i + 1
    };
    proof {
        let ni = n as int;
        let ii = i as int;
        if ii == 0 {
            assert((ii + ni - 1) % ni == ni - 1) by (nonlinear_arith)
                requires
                    ii == 0,
                    ni >= 1,
            ;
        } else {
            assert((ii + ni - 1) % ni == ii - 1) by (nonlinear_arith)
                requires
                    1 <= ii < ni,
            ;
        }
        if ii + 1 == ni {
            assert((ii + 1) % ni == 0) by (nonlinear_arith)
                requires
                    ii + 1 == ni,
                    ni >= 1,
            ;
        } else {
            assert((ii + 1) % ni == ii + 1) by (nonlinear_arith)
                requires
                    0 <= ii,
                    ii + 1 < ni,
            ;
        }
    }
    let previous = contour[p];
    let current = contour[i];
    let next = contour[q];
    let ax = current.0 as i128 - previous.0 as i128;
    let ay = current.1 as i128 - previous.1 as i128;
    let bx = next.0 as i128 - current.0 as i128;
    let by = next.1 as i128 - current.1 as i128;
    let limit = 0x8000_0000_0000_0000i128;
    assert(-limit < ax < limit && -limit < ay < limit && -limit < bx < limit && -limit < by
        < limit);
    assert(-0x4000_0000_0000_0000_0000_0000_0000_0000 < ax * by < 0x4000_0000_0000_0000_0000_0000_0000_0000)
        by (nonlinear_arith)
        requires
            -limit < ax < limit,
            -limit < by < limit,
            limit == 0x8000_0000_0000_0000i128,
    ;
    assert(-0x4000_0000_0000_0000_0000_0000_0000_0000 < ay * bx < 0x4000_0000_0000_0000_0000_0000_0000_0000)
        by (nonlinear_arith)
        requires
            -limit < ay < limit,
            -limit < bx < limit,
            limit == 0x8000_0000_0000_0000i128,
    ;
    ax * by - ay * bx
}

/// Drops the points where an outline runs straight on (see
/// `spec_simplify_outline`).
pub fn simplify_outline(contour: &Vec<GridPoint>) -> (r: Vec<GridPoint>)
    requires
        within_grid_limit(contour@),
    ensures
        r@ == spec_simplify_outline(contour@),
{
    let n = contour.len();
    if n < 3 {
        return duplicate_points(contour);
    }
    let mut kept: Vec<GridPoint> = Vec::new();
    let mut i: usize = 0;
    while i < n
        invariant
            i <= n,
            n == contour@.len(),
            n >= 3,
            within_grid_limit(contour@),
            kept@ == corners_upto(contour@, i as int),
        decreases n - i,
    {
        let t = turn_of(contour, i);
        if t > 100 || t < -100 {
            kept.push(contour[i]);
        }
        i = i + 1;
    }
    if kept.len() >= 3 {
        kept
    } else {
        duplicate_points(contour)
    }
}

fn duplicate_points(v: &Vec<GridPoint>) -> (r: Vec<GridPoint>)
    ensures
        r@ == v@,
{
    let mut r: Vec<GridPoint> = Vec::new();
    let mut i: usize = 0;
    while i < v.len()
        invariant
            i <= v@.len(),
            r@ == v@.take(i as int),
        decreases v@.len() - i,
    {
        r.push(v[i]);
        i = i + 1;
        assert(r@ =~= v@.take(i as int));
    }
    assert(v@.take(i as int) =~= v@);
    r
}

} // verus!
