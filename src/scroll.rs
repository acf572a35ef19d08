//! Mouse-wheel scrolling of a widget's text buffer.
use vstd::prelude::*;

verus! {

/// The unit a wheel event's delta is given in.
#[derive(Clone, Copy, Debug, PartialEq, Eq, Structural)]
pub enum MouseScrollUnit {
    Line,
    Pixel,
}

/// A mouse-wheel event: its vertical delta `y`, positive upwards.
#[derive(Clone, Copy, Debug, PartialEq, Eq, Structural)]
pub struct MouseWheel {
    pub unit: MouseScrollUnit,
    pub y: i32,
}

/// Whether a widget reacts to the mouse wheel.
#[derive(Clone, Copy, Debug, PartialEq, Eq, Structural)]
pub struct ScrollEnabled(pub bool);

/// The pixels by which `ev` scrolls a buffer whose lines are `line_height`
/// pixels high; the buffer's scroll direction is the wheel's, negated.
pub open spec fn scroll_pixels(ev: MouseWheel, line_height: u32) -> int {
    match ev.unit {
        MouseScrollUnit::Line => -(ev.y * line_height),
        MouseScrollUnit::Pixel => -ev.y,
    }
}

/// The scroll actions, in pixels, that the events `es` issue.
pub open spec fn scroll_actions(es: Seq<MouseWheel>, line_height: u32) -> Seq<i64> {
    es.map_values(|ev: MouseWheel| scroll_pixels(ev, line_height) as i64)
}

/// The pixel scroll that one wheel event asks for.
pub fn scroll_delta(ev: &MouseWheel, line_height: u32) -> (r: i64)
    ensures
        r == scroll_pixels(*ev, line_height),
{
    match ev.unit {
        MouseScrollUnit::Line => {
            let y = ev.y as i64;
            let h = line_height as i64;
            assert(-0x7fff_ffff_8000_0000 <= y * h <= 0x7fff_ffff_8000_0000) by (nonlinear_arith)
                requires
                    -0x8000_0000 <= y < 0x8000_0000,
                    0 <= h < 0x1_0000_0000,
            ;
            -(y * h)
        },
        MouseScrollUnit::Pixel => -(ev.y as i64),
    }
}

/// The scroll actions, in pixels and in arrival order, that a frame's wheel
/// events issue to a widget's buffer with lines `line_height` pixels high.
/// A widget with scrolling disabled issues none.
pub fn scroll(scroll_enabled: ScrollEnabled, line_height: u32, events: &Vec<MouseWheel>) -> (r: Vec<i64>)
    ensures
        !scroll_enabled.0 ==> r@.len() == 0,
        scroll_enabled.0 ==> r@ == scroll_actions(events@, line_height),
{
    let mut out: Vec<i64> = Vec::new();
    if !scroll_enabled.0 {
        return out;
    }
    let mut i: usize = 0;
    while i < events.len()
        invariant
            i <= events@.len(),
            out@ == scroll_actions(events@.take(i as int), line_height),
        decreases events@.len() - i,
    {
        let d = scroll_delta(&events[i], line_height);
        out.push(d);
        i = i + 1;
        assert(out@ =~= scroll_actions(events@.take(i as int), line_height));
    }
    assert(events@.take(events@.len() as int) =~= events@);
    out
}

/// The buffer's total scroll after the actions `ds`, from `start`.
pub open spec fn total_scroll(start: int, ds: Seq<i64>) -> int
    decreases ds.len(),
{
    if ds.len() == 0 {
        start
    } else {
        total_scroll(start, ds.drop_last()) + ds.last()
    }
}

/// Wheel events apply cumulatively: scrolling by the events `a` and then
/// by `b` issues the same actions as the events of `a` followed by `b`
/// in one frame, and so moves the buffer by the same total.
pub proof fn lemma_scroll_cumulative(a: Seq<MouseWheel>, b: Seq<MouseWheel>, line_height: u32, start: int)
    ensures
        scroll_actions(a + b, line_height) == scroll_actions(a, line_height) + scroll_actions(
            b,
            line_height,
        ),
        total_scroll(start, scroll_actions(a + b, line_height)) == total_scroll(
            total_scroll(start, scroll_actions(a, line_height)),
            scroll_actions(b, line_height),
        ),
    decreases b.len(),
{
    assert(scroll_actions(a + b, line_height) =~= scroll_actions(a, line_height) + scroll_actions(
        b,
        line_height,
    ));
    if b.len() > 0 {
        lemma_scroll_cumulative(a, b.drop_last(), line_height, start);
        assert((a + b).drop_last() =~= a + b.drop_last());
        let l = scroll_actions(a + b, line_height);
        assert(l.drop_last() =~= scroll_actions(a + b.drop_last(), line_height));
        assert(scroll_actions(b, line_height).drop_last() =~= scroll_actions(
            b.drop_last(),
            line_height,
        ));
    }
}

} // verus!
