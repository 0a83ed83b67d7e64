use renderenko::clip::{plan_clip, triangle_count, ClipPlan};
use renderenko::raster::{order_by_y, scanline_rows, ScreenVertex};

#[test]
fn clip_plans_for_every_case() {
    assert_eq!(plan_clip(false, false, false), ClipPlan::Discard);
    assert_eq!(plan_clip(true, true, true), ClipPlan::Keep);
    assert_eq!(
        plan_clip(false, true, false),
        ClipPlan::OneInside { inside: 1, outside_first: 0, outside_second: 2 }
    );
    assert_eq!(
        plan_clip(true, false, true),
        ClipPlan::TwoInside { inside_first: 0, inside_second: 2, outside: 1 }
    );
    assert_eq!(
        plan_clip(false, true, true),
        ClipPlan::TwoInside { inside_first: 1, inside_second: 2, outside: 0 }
    );
}

#[test]
fn clip_triangle_counts() {
    for a in [false, true] {
        for b in [false, true] {
            for c in [false, true] {
                let inside = [a, b, c].iter().filter(|x| **x).count();
                let expected = match inside {
                    0 => 0,
                    2 => 2,
                    _ => 1,
                };
                assert_eq!(triangle_count(plan_clip(a, b, c)), expected);
            }
        }
    }
}

fn v(x: i32, y: i32, tag: char) -> ScreenVertex<char> {
    ScreenVertex { x, y, attrs: tag }
}

fn tags(r: (ScreenVertex<char>, ScreenVertex<char>, ScreenVertex<char>)) -> String {
    [r.0.attrs, r.1.attrs, r.2.attrs].iter().collect()
}

#[test]
fn order_by_y_sorts_rows() {
    assert_eq!(tags(order_by_y(v(0, 5, 'a'), v(1, 3, 'b'), v(2, 4, 'c'))), "bca");
    assert_eq!(tags(order_by_y(v(0, 9, 'a'), v(1, 8, 'b'), v(2, 7, 'c'))), "cba");
    let r = order_by_y(v(0, 2, 'a'), v(7, 0, 'b'), v(3, 1, 'c'));
    assert_eq!((r.0.x, r.0.y), (7, 0));
    assert_eq!((r.2.x, r.2.y), (0, 2));
}

#[test]
fn order_by_y_keeps_sorted_input() {
    assert_eq!(tags(order_by_y(v(0, 1, 'a'), v(0, 2, 'b'), v(0, 3, 'c'))), "abc");
    assert_eq!(tags(order_by_y(v(0, 1, 'a'), v(0, 1, 'b'), v(0, 1, 'c'))), "abc");
}

#[test]
fn order_by_y_ties() {
    // equal rows are not kept in their given order by this network
    assert_eq!(tags(order_by_y(v(0, 2, 'a'), v(0, 2, 'b'), v(0, 1, 'c'))), "cba");
}

#[test]
fn scanline_row_ranges() {
    assert_eq!(scanline_rows(0, 5, 9), (Some((0, 5)), Some((5, 9))));
    assert_eq!(scanline_rows(3, 3, 9), (None, Some((3, 9))));
    assert_eq!(scanline_rows(3, 9, 9), (Some((3, 9)), None));
    assert_eq!(scanline_rows(4, 4, 4), (None, None));
}

use renderenko::clip::clip_in_stages;

#[test]
fn stages_without_planes_keep_the_triangle() {
    assert_eq!(clip_in_stages(7u32, 0, |_p: usize, t: u32| vec![t, t]), vec![7]);
}

#[test]
fn stages_clip_every_piece_in_order() {
    // each stage splits a piece into two labelled by the plane number
    let out = clip_in_stages(1u32, 2, |p: usize, t: u32| vec![t * 10 + p as u32, t * 10 + 5]);
    assert_eq!(out, vec![100 + 1, 105, 150 + 1, 155]);
}

#[test]
fn stages_drop_and_keep() {
    assert_eq!(clip_in_stages(3u32, 4, |_p: usize, t: u32| vec![t]), vec![3]);
    assert_eq!(clip_in_stages(3u32, 4, |_p: usize, _t: u32| Vec::new()), Vec::<u32>::new());
    // a piece dropped at the second plane stays dropped
    let out = clip_in_stages(2u32, 3, |p: usize, t: u32| if p == 1 && t % 2 == 0 { vec![] } else { vec![t, t + 1] });
    // stage 0: [2, 3]; stage 1: [] from 2, [3, 4] from 3; stage 2: [3, 4, 4, 5]
    assert_eq!(out, vec![3, 4, 4, 5]);
}
