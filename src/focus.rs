//! Which single widget, if any, holds keyboard focus.
use vstd::prelude::*;

verus! {

/// The widget entity, by id, that receives keyboard input; at most one.
#[derive(Clone, Copy, Debug, PartialEq, Eq, Structural)]
pub struct FocusedWidget(pub Option<u64>);

/// An event that the focus controller reacts to.
#[derive(Clone, Copy, Debug, PartialEq, Eq, Structural)]
pub enum FocusEvent {
    /// A click on the render surface of the widget with this id.
    Click(u64),
    /// The deselect key (escape) was pressed.
    Escape,
}

/// The focus after `e`, from `f`.
pub open spec fn focus_step(f: Option<u64>, e: FocusEvent) -> Option<u64> {
    match e {
        FocusEvent::Click(id) => Some(id),
        FocusEvent::Escape => None,
    }
}

/// The focus after the events `es`, in order, from `f`.
pub open spec fn focus_after(f: Option<u64>, es: Seq<FocusEvent>) -> Option<u64>
    decreases es.len(),
{
    if es.len() == 0 {
        f
    } else {
        focus_step(focus_after(f, es.drop_last()), es.last())
    }
}

impl FocusedWidget {
    /// Nothing is focused at startup.
    pub fn new() -> (r: Self)
        ensures
            r.0.is_none(),
    {
        FocusedWidget(None)
    }

    /// Gives focus to the clicked widget, taking it from any other.
    pub fn focus_on_click(&mut self, entity: u64)
        ensures
            final(self).0 == Some(entity),
    {
        self.0 = Some(entity);
    }

    /// Clears focus; no widget is focused afterwards.
    pub fn deselect_editor_on_esc(&mut self)
        ensures
            final(self).0.is_none(),
    {
        self.0 = None;
    }

    /// Whether the widget `entity` holds focus.
    pub fn is_focused(&self, entity: u64) -> (r: bool)
        ensures
            r == (self.0 == Some(entity)),
    {
        match self.0 {
            Some(id) => id == entity,
            None => false,
        }
    }

    /// Applies a frame's focus events in arrival order.
    pub fn process_focus_events(&mut self, events: &Vec<FocusEvent>)
        ensures
            final(self).0 == focus_after(old(self).0, events@),
    {
        let ghost start = self.0;
        let mut i: usize = 0;
        while i < events.len()
            invariant
                i <= events@.len(),
                self.0 == focus_after(start, events@.take(i as int)),
            decreases events@.len() - i,
        {
            let ghost pre = events@.take(i as int);
            let ghost next = events@.take(i as int + 1);
            assert(next.drop_last() =~= pre);
            match events[i] {
                FocusEvent::Click(id) => self.focus_on_click(id),
                FocusEvent::Escape => self.deselect_editor_on_esc(),
            }
            i = i + 1;
        }
        assert(events@.take(events@.len() as int) =~= events@);
    }
}

/// Focus is decided by the last event alone: after a click the clicked
/// widget is focused, whatever came before; after escape none is.
pub proof fn lemma_last_event_decides_focus(f: Option<u64>, es: Seq<FocusEvent>, e: FocusEvent)
    ensures
        focus_after(f, es.push(e)) == focus_step(None, e),
{
    assert(es.push(e).drop_last() =~= es);
}

} // verus!
