use vstd::prelude::*;

verus! {

/// A triangle corner in screen space: integer pixel position and the
/// attributes interpolated across the triangle, carried unchanged.
#[derive(Clone, Copy, Debug)]
pub struct ScreenVertex<P> {
    pub x: i32,
    pub y: i32,
    pub attrs: P,
}

/// Puts the pair in order of `y`, swapping only when the second lies
/// strictly above the first.
pub open spec fn order_pair<P>(p: ScreenVertex<P>, q: ScreenVertex<P>) -> (ScreenVertex<P>, ScreenVertex<P>) {
    if q.y < p.y { (q, p) } else { (p, q) }
}

/// The corners ordered top to bottom by the rasterizer: first and second
/// put in order, then first and third, then second and third.
pub open spec fn order_by_y_spec<P>(
    a: ScreenVertex<P>,
    b: ScreenVertex<P>,
    c: ScreenVertex<P>,
) -> (ScreenVertex<P>, ScreenVertex<P>, ScreenVertex<P>) {
    let (a1, b1) = order_pair(a, b);
    let (a2, c1) = order_pair(a1, c);
    let (b2, c2) = order_pair(b1, c1);
    (a2, b2, c2)
}

/// Orders a triangle's corners by `y` before it is filled row by row.
pub fn order_by_y<P: Copy>(a: ScreenVertex<P>, b: ScreenVertex<P>, c: ScreenVertex<P>) -> (r: (
    ScreenVertex<P>,
    ScreenVertex<P>,
    ScreenVertex<P>,
))
    ensures
        r == order_by_y_spec(a, b, c),
        r.0.y <= r.1.y <= r.2.y,
{
    let (mut v1, mut v2, mut v3) = (a, b, c);
    if v2.y < v1.y {
        let t = v1;
        v1 = v2;
        v2 = t;
    }
    if v3.y < v1.y {
        let t = v1;
        v1 = v3;
        v3 = t;
    }
    if v3.y < v2.y {
        let t = v2;
        v2 = v3;
        v3 = t;
    }
    (v1, v2, v3)
}

/// Law of the corner ordering: the result is sorted by `y` and is the same
/// three corners, each as often as it was given.
pub proof fn lemma_order_by_y_sorts<P>(a: ScreenVertex<P>, b: ScreenVertex<P>, c: ScreenVertex<P>)
    ensures
        ({
            let r = order_by_y_spec(a, b, c);
            &&& r.0.y <= r.1.y <= r.2.y
            &&& seq![r.0, r.1, r.2].to_multiset() == seq![a, b, c].to_multiset()
        }),
{
    let r = order_by_y_spec(a, b, c);
    broadcast use vstd::seq_lib::group_to_multiset_ensures;
    let s = seq![a, b, c];
    let t = seq![r.0, r.1, r.2];
    assert(s =~= seq![a].push(b).push(c));
    assert(t =~= seq![r.0].push(r.1).push(r.2));
    assert(seq![a].drop_last() =~= Seq::<ScreenVertex<P>>::empty());
    assert(seq![r.0].drop_last() =~= Seq::<ScreenVertex<P>>::empty());
    assert(t.to_multiset() =~= s.to_multiset());
}

/// Law of the corner ordering: corners already in order of `y` are left
/// as they are.
pub proof fn lemma_order_by_y_keeps_sorted<P>(a: ScreenVertex<P>, b: ScreenVertex<P>, c: ScreenVertex<P>)
    requires
        a.y <= b.y <= c.y,
    ensures
        order_by_y_spec(a, b, c) == (a, b, c),
{
}

/// The rows a triangle with corners ordered by `y` is filled on: the upper
/// part from the first corner's row to the second's, drawn only when they
/// differ, and the lower part from the second corner's row to the third's,
/// drawn only when those differ. Both ranges include their ends.
pub fn scanline_rows(y1: i32, y2: i32, y3: i32) -> (rows: (Option<(i32, i32)>, Option<(i32, i32)>))
    requires
        y1 <= y2 <= y3,
        y3 - y1 <= i32::MAX,
    ensures
        rows.0 == (if y2 != y1 { Some((y1, y2)) } else { None::<(i32, i32)> }),
        rows.1 == (if y3 != y2 { Some((y2, y3)) } else { None::<(i32, i32)> }),
{
    let upper_height = y2 - y1;
    let lower_height = y3 - y2;
    let upper = if upper_height != 0 { Some((y1, y2)) } else { None };
    let lower = if lower_height != 0 { Some((y2, y3)) } else { None };
    (upper, lower)
}

/// Law of the fill rows: for corners ordered by `y`, the rows drawn are
/// exactly those from the first corner's row to the third's, the shared
/// middle row counted in both parts, and nothing is drawn for a flat
/// triangle.
pub proof fn lemma_scanline_rows_cover(y1: int, y2: int, y3: int, row: int)
    requires
        y1 <= y2 <= y3,
    ensures
        (y1 != y2 && y1 <= row <= y2) || (y2 != y3 && y2 <= row <= y3) <==> (y1 != y3 && y1 <= row
            <= y3),
{
}

} // verus!
