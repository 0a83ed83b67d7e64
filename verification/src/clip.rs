use vstd::prelude::*;

verus! {

/// How a triangle is cut by a plane, given which of its three corners
/// (numbered 0, 1, 2) lie on the kept side. Corner numbers of each side
/// are listed in increasing order.
#[derive(Clone, Copy, Debug, PartialEq, Eq, Structural)]
pub enum ClipPlan {
    /// No corner is kept: the triangle is dropped.
    Discard,
    /// All corners are kept: the triangle is kept whole.
    Keep,
    /// One corner is kept: one smaller triangle, from the kept corner to
    /// the plane's crossings of its edges to the two other corners.
    OneInside { inside: usize, outside_first: usize, outside_second: usize },
    /// Two corners are kept: the remaining quadrilateral, cut into two
    /// triangles along the crossing of the edge from the first kept corner
    /// to the dropped one.
    TwoInside { inside_first: usize, inside_second: usize, outside: usize },
}

/// The corners on one side, in increasing order.
pub open spec fn corners_where(flags: Seq<bool>, side: bool) -> Seq<usize> {
    (if flags[0] == side { seq![0usize] } else { Seq::empty() })
        + (if flags[1] == side { seq![1usize] } else { Seq::empty() })
        + (if flags[2] == side { seq![2usize] } else { Seq::empty() })
}

/// The plan for a triangle whose corners lie inside as `flags` tells.
pub open spec fn clip_plan_spec(flags: Seq<bool>) -> ClipPlan {
    let ins = corners_where(flags, true);
    let outs = corners_where(flags, false);
    if ins.len() == 0 {
        ClipPlan::Discard
    } else if ins.len() == 3 {
        ClipPlan::Keep
    } else if ins.len() == 1 {
        ClipPlan::OneInside { inside: ins[0], outside_first: outs[0], outside_second: outs[1] }
    } else {
        ClipPlan::TwoInside { inside_first: ins[0], inside_second: ins[1], outside: outs[0] }
    }
}

/// The number of triangles a plan yields.
pub open spec fn plan_triangle_count(plan: ClipPlan) -> nat {
    match plan {
        ClipPlan::Discard => 0,
        ClipPlan::Keep => 1,
        ClipPlan::OneInside { .. } => 1,
        ClipPlan::TwoInside { .. } => 2,
    }
}

/// Decides how a triangle is clipped against a plane, from whether each
/// corner's signed distance to the plane is at least zero.
pub fn plan_clip(first_inside: bool, second_inside: bool, third_inside: bool) -> (plan: ClipPlan)
    ensures
        plan == clip_plan_spec(seq![first_inside, second_inside, third_inside]),
{
    let ghost flags = seq![first_inside, second_inside, third_inside];
    let mut ins: Vec<usize> = Vec::new();
    let mut outs: Vec<usize> = Vec::new();
    if first_inside { ins.push(0); } else { outs.push(0); }
    if second_inside { ins.push(1); } else { outs.push(1); }
    if third_inside { ins.push(2); } else { outs.push(2); }
    assert(ins@ =~= corners_where(flags, true));
    assert(outs@ =~= corners_where(flags, false));
    if ins.len() == 0 {
        ClipPlan::Discard
    } else if ins.len() == 3 {
        ClipPlan::Keep
    } else if ins.len() == 1 {
        ClipPlan::OneInside { inside: ins[0], outside_first: outs[0], outside_second: outs[1] }
    } else {
        ClipPlan::TwoInside { inside_first: ins[0], inside_second: ins[1], outside: outs[0] }
    }
}

/// The number of triangles the plan yields, as the clipping step reports it.
pub fn triangle_count(plan: ClipPlan) -> (n: u32)
    ensures
        n == plan_triangle_count(plan),
{
    match plan {
        ClipPlan::Discard => 0,
        ClipPlan::Keep => 1,
        ClipPlan::OneInside { .. } => 1,
        ClipPlan::TwoInside { .. } => 2,
    }
}

/// Law of clipping: the plan names every corner exactly once, on the side
/// it lies on; it yields no triangle when no corner is inside, one when one
/// or all three are, and two when exactly two are.
pub proof fn lemma_clip_plan_partition(a: bool, b: bool, c: bool)
    ensures
        ({
            let flags = seq![a, b, c];
            let n_in = corners_where(flags, true).len();
            &&& n_in + corners_where(flags, false).len() == 3
            &&& plan_triangle_count(clip_plan_spec(flags)) == (if n_in == 0 {
                0nat
            } else if n_in == 2 {
                2nat
            } else {
                1nat
            })
            &&& match clip_plan_spec(flags) {
                ClipPlan::Discard => !a && !b && !c,
                ClipPlan::Keep => a && b && c,
                ClipPlan::OneInside { inside, outside_first, outside_second } => {
                    &&& inside < 3 && outside_first < outside_second < 3
                    &&& inside != outside_first && inside != outside_second
                    &&& flags[inside as int] && !flags[outside_first as int]
                        && !flags[outside_second as int]
                }
                ClipPlan::TwoInside { inside_first, inside_second, outside } => {
                    &&& inside_first < inside_second < 3 && outside < 3
                    &&& outside != inside_first && outside != inside_second
                    &&& flags[inside_first as int] && flags[inside_second as int]
                        && !flags[outside as int]
                }
            }
        }),
{
    let flags = seq![a, b, c];
    let ins = corners_where(flags, true);
    let outs = corners_where(flags, false);
    assert(flags[0] == a && flags[1] == b && flags[2] == c);
    if a { if b { if c {
        assert(ins =~= seq![0usize, 1, 2]); assert(outs =~= Seq::<usize>::empty());
    } else {
        assert(ins =~= seq![0usize, 1]); assert(outs =~= seq![2usize]);
    } } else { if c {
        assert(ins =~= seq![0usize, 2]); assert(outs =~= seq![1usize]);
    } else {
        assert(ins =~= seq![0usize]); assert(outs =~= seq![1usize, 2]);
    } } } else { if b { if c {
        assert(ins =~= seq![1usize, 2]); assert(outs =~= seq![0usize]);
    } else {
        assert(ins =~= seq![1usize]); assert(outs =~= seq![0usize, 2]);
    } } else { if c {
        assert(ins =~= seq![2usize]); assert(outs =~= seq![0usize, 1]);
    } else {
        assert(ins =~= Seq::<usize>::empty()); assert(outs =~= seq![0usize, 1, 2]);
    } } }
}

/// The texts of the pieces each clip returned, joined in order.
pub open spec fn joined_pieces<T>(pieces: Seq<Vec<T>>) -> Seq<T> {
    pieces.map_values(|v: Vec<T>| v@).flatten()
}

/// `after` is what clipping every triangle of `before` against plane
/// `plane`, in order, yields: the pieces each clip may return, joined in
/// order.
pub open spec fn stage_follows<T, F: Fn(usize, T) -> Vec<T>>(
    clip: F,
    plane: usize,
    before: Seq<T>,
    after: Seq<T>,
) -> bool {
    exists|pieces: Seq<Vec<T>>|
        {
            &&& pieces.len() == before.len()
            &&& forall|i: int|
                0 <= i < before.len() ==> call_ensures(clip, (plane, before[i]), #[trigger] pieces[i])
            &&& after == joined_pieces(pieces)
        }
}

/// Clips a triangle against planes `0..planes` in turn, as the screen
/// edges are applied before filling: every stage clips, in order, each
/// triangle the previous stage left and keeps the pieces in order; the
/// triangles of the last stage are returned.
pub fn clip_in_stages<T: Copy, F: Fn(usize, T) -> Vec<T>>(tri: T, planes: usize, clip: F) -> (out: Vec<T>)
    requires
        forall|p: usize, t: T| call_requires(clip, (p, t)),
    ensures
        exists|stages: Seq<Seq<T>>|
            {
                &&& stages.len() == planes + 1
                &&& stages[0] == seq![tri]
                &&& stages[planes as int] == out@
                &&& forall|p: int|
                    0 <= p < planes ==> stage_follows(clip, p as usize, #[trigger] stages[p], stages[p + 1])
            },
{
    let mut current: Vec<T> = Vec::new();
    current.push(tri);
    let ghost mut stages: Seq<Seq<T>> = seq![current@];
    let mut p: usize = 0;
    while p < planes
        invariant
            p <= planes,
            forall|q: usize, t: T| call_requires(clip, (q, t)),
            stages.len() == p + 1,
            stages[0] == seq![tri],
            stages[p as int] == current@,
            forall|q: int|
                0 <= q < p ==> stage_follows(clip, q as usize, #[trigger] stages[q], stages[q + 1]),
        decreases planes - p,
    {
        let mut next: Vec<T> = Vec::new();
        let ghost mut pieces: Seq<Vec<T>> = Seq::empty();
        let mut i: usize = 0;
        while i < current.len()
            invariant
                i <= current.len(),
                forall|q: usize, t: T| call_requires(clip, (q, t)),
                pieces.len() == i,
                forall|j: int|
                    0 <= j < i ==> call_ensures(clip, (p, current@[j]), #[trigger] pieces[j]),
                next@ == joined_pieces(pieces),
            decreases current.len() - i,
        {
            let mut piece = clip(p, current[i]);
            proof {
                let old_pieces = pieces;
                pieces = pieces.push(piece);
                assert(pieces.map_values(|v: Vec<T>| v@) =~= old_pieces.map_values(|v: Vec<T>| v@).push(piece@));
                old_pieces.map_values(|v: Vec<T>| v@).lemma_flatten_push(piece@);
            }
            next.append(&mut piece);
            i = i + 1;
        }
        proof {
            assert(stage_follows(clip, p, current@, next@));
            stages = stages.push(next@);
        }
        current = next;
        p = p + 1;
    }
    current
}

} // verus!
