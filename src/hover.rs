//! Pointer hover state of one widget: `Idle`, `Hovering` or `Dragging`.
use vstd::prelude::*;

verus! {

/// A position inside the text buffer: a line and a byte index within it.
#[derive(Clone, Copy, Debug, PartialEq, Eq, Structural)]
pub struct TextPosition {
    pub line: usize,
    pub index: usize,
}

/// Per-widget pointer state.
#[derive(Clone, Copy, Debug, PartialEq, Eq, Structural)]
pub enum InputState {
    Idle,
    Hovering,
    /// A selection drag is in progress; `anchor` is its fixed end.
    Dragging { anchor: TextPosition },
}

/// Whenever a pointer enters a widget
#[derive(Clone, Copy, Debug, PartialEq, Eq, Structural)]
pub struct TextHoverIn;

/// Whenever a pointer exits a widget
#[derive(Clone, Copy, Debug, PartialEq, Eq, Structural)]
pub struct TextHoverOut;

/// The system pointer icons a widget can ask for.
#[derive(Clone, Copy, Debug, PartialEq, Eq, Structural)]
pub enum SystemCursorIcon {
    Default,
    Text,
    Pointer,
    Grab,
    Grabbing,
    NotAllowed,
}

/// A pointer icon.
#[derive(Clone, Copy, Debug, PartialEq, Eq, Structural)]
pub enum CursorIcon {
    System(SystemCursorIcon),
}

/// What cursor icon to show when hovering over a widget; by default the
/// text-input I-beam.
#[derive(Clone, Copy, Debug, PartialEq, Eq, Structural)]
pub struct HoverCursor(pub CursorIcon);

impl Default for HoverCursor {
    fn default() -> (r: Self)
        ensures
            r.0 == CursorIcon::System(SystemCursorIcon::Text),
    {
        HoverCursor(CursorIcon::System(SystemCursorIcon::Text))
    }
}

/// The pointer events that drive [`InputState`].
#[derive(Clone, Copy, Debug, PartialEq, Eq, Structural)]
pub enum PointerEvent {
    /// The pointer enters the widget's bounds.
    Over,
    /// The pointer moves while over the widget.
    Move,
    /// The pointer leaves the widget's bounds.
    Out,
}

/// A notification emitted by a hover transition.
#[derive(Clone, Copy, Debug, PartialEq, Eq, Structural)]
pub enum HoverNotification {
    In(TextHoverIn),
    Out(TextHoverOut),
}

impl Default for InputState {
    fn default() -> (r: Self)
        ensures
            r == InputState::Idle,
    {
        InputState::Idle
    }
}

/// The transition table of the hover state machine.
pub open spec fn next_state(s: InputState, e: PointerEvent) -> InputState {
    match e {
        PointerEvent::Over | PointerEvent::Move => match s {
            InputState::Idle => InputState::Hovering,
            _ => s,
        },
        PointerEvent::Out => match s {
            InputState::Hovering => InputState::Idle,
            _ => s,
        },
    }
}

/// The notification that the transition from `s` on `e` emits, if any.
pub open spec fn notification(s: InputState, e: PointerEvent) -> Option<HoverNotification> {
    match (s, e) {
        (InputState::Idle, PointerEvent::Over) => Some(HoverNotification::In(TextHoverIn)),
        (InputState::Hovering, PointerEvent::Out) => Some(HoverNotification::Out(TextHoverOut)),
        _ => None,
    }
}

impl InputState {
    /// `Over` event handler
    pub fn start_hovering(&mut self)
        ensures
            *final(self) == next_state(*old(self), PointerEvent::Over),
    {
        match self {
            InputState::Idle => *self = InputState::Hovering,
            InputState::Hovering | InputState::Dragging { .. } => {},
        }
    }

    pub fn is_hovering(&self) -> (r: bool)
        ensures
            r == (*self == InputState::Hovering),
    {
        matches!(self, InputState::Hovering)
    }

    /// `Move` event handler; also recovers `Hovering` after a drag that
    /// ended with the pointer still over the widget.
    pub fn continue_hovering(&mut self)
        ensures
            *final(self) == next_state(*old(self), PointerEvent::Move),
    {
        match self {
            InputState::Hovering | InputState::Dragging { .. } => {},
            InputState::Idle => {
                *self = InputState::Hovering;
            },
        }
    }

    /// `Out` event handler
    pub fn end_hovering(&mut self)
        ensures
            *final(self) == next_state(*old(self), PointerEvent::Out),
    {
        match self {
            InputState::Hovering => *self = InputState::Idle,
            InputState::Idle | InputState::Dragging { .. } => {},
        }
    }
}

/// Handles an `Over` event for a widget whose input state is `editor`
/// (`None` when the entity has no editor: the event is then dropped).
/// Returns the [`TextHoverIn`] to emit, present only on `Idle -> Hovering`.
pub fn handle_hover_start(editor: &mut Option<InputState>) -> (r: Option<TextHoverIn>)
    ensures
        old(editor).is_none() ==> final(editor).is_none() && r.is_none(),
        old(editor).is_some() ==> *final(editor) == Some(
            next_state(old(editor).unwrap(), PointerEvent::Over),
        ),
        r.is_some() <==> *old(editor) == Some(InputState::Idle),
{
    match editor {
        None => None,
        Some(state) => {
            let was_idle = matches!(state, InputState::Idle);
            state.start_hovering();
            if was_idle && state.is_hovering() {
                Some(TextHoverIn)
            } else {
                None
            }
        },
    }
}

/// Handles a `Move` event for a widget whose input state is `editor`.
pub fn handle_hover_continue(editor: &mut Option<InputState>)
    ensures
        old(editor).is_none() ==> final(editor).is_none(),
        old(editor).is_some() ==> *final(editor) == Some(
            next_state(old(editor).unwrap(), PointerEvent::Move),
        ),
{
    match editor {
        None => {},
        Some(state) => {
            state.continue_hovering();
        },
    }
}

/// Handles an `Out` event for a widget whose input state is `editor`.
/// Returns the [`TextHoverOut`] to emit, present only on `Hovering -> Idle`.
pub fn handle_hover_end(editor: &mut Option<InputState>) -> (r: Option<TextHoverOut>)
    ensures
        old(editor).is_none() ==> final(editor).is_none() && r.is_none(),
        old(editor).is_some() ==> *final(editor) == Some(
            next_state(old(editor).unwrap(), PointerEvent::Out),
        ),
        r.is_some() <==> *old(editor) == Some(InputState::Hovering),
{
    match editor {
        None => None,
        Some(state) => {
            let was_hovering = state.is_hovering();
            state.end_hovering();
            if was_hovering && !state.is_hovering() {
                Some(TextHoverOut)
            } else {
                None
            }
        },
    }
}

/// The state after the events `es`, in order, starting from `s`.
pub open spec fn state_after(s: InputState, es: Seq<PointerEvent>) -> InputState
    decreases es.len(),
{
    if es.len() == 0 {
        s
    } else {
        next_state(state_after(s, es.drop_last()), es.last())
    }
}

/// The notifications emitted by the events `es`, in order, starting from `s`.
pub open spec fn notifications_after(s: InputState, es: Seq<PointerEvent>) -> Seq<HoverNotification>
    decreases es.len(),
{
    if es.len() == 0 {
        Seq::empty()
    } else {
        let before = notifications_after(s, es.drop_last());
        match notification(state_after(s, es.drop_last()), es.last()) {
            Some(n) => before.push(n),
            None => before,
        }
    }
}

/// Applies one pointer event to `state` and returns the notification it emits.
pub fn apply_pointer_event(state: &mut InputState, event: PointerEvent) -> (r: Option<HoverNotification>)
    ensures
        *final(state) == next_state(*old(state), event),
        r == notification(*old(state), event),
{
    let mut editor = Some(*state);
    let r = match event {
        PointerEvent::Over => match handle_hover_start(&mut editor) {
            Some(n) => Some(HoverNotification::In(n)),
            None => None,
        },
        PointerEvent::Move => {
            handle_hover_continue(&mut editor);
            None
        },
        PointerEvent::Out => match handle_hover_end(&mut editor) {
            Some(n) => Some(HoverNotification::Out(n)),
            None => None,
        },
    };
    *state = editor.unwrap();
    r
}

/// Drains a frame's queue of pointer events in arrival order and returns
/// the notifications emitted, in order.
pub fn process_pointer_events(state: &mut InputState, events: &Vec<PointerEvent>) -> (r: Vec<HoverNotification>)
    ensures
        *final(state) == state_after(*old(state), events@),
        r@ == notifications_after(*old(state), events@),
{
    let ghost start = *state;
    let mut out: Vec<HoverNotification> = Vec::new();
    let mut i: usize = 0;
    while i < events.len()
        invariant
            start == *old(state),
            i <= events@.len(),
            *state == state_after(start, events@.take(i as int)),
            out@ == notifications_after(start, events@.take(i as int)),
        decreases events@.len() - i,
    {
        let ghost pre = events@.take(i as int);
        let ghost next = events@.take(i as int + 1);
        assert(next.drop_last() =~= pre);
        assert(next.last() == events@[i as int]);
        match apply_pointer_event(state, events[i]) {
            Some(n) => out.push(n),
            None => {},
        }
        i = i + 1;
    }
    assert(events@.take(events@.len() as int) =~= events@);
    out
}

/// A hover notification fires exactly on the two qualifying transitions:
/// `TextHoverIn` on `Over` from `Idle` into `Hovering`, `TextHoverOut` on
/// `Out` from `Hovering` into `Idle`; a self-loop never notifies.
pub proof fn lemma_notifications_only_on_transitions(s: InputState, e: PointerEvent)
    ensures
        notification(s, e) == Some(HoverNotification::In(TextHoverIn)) <==> (e == PointerEvent::Over
            && s == InputState::Idle && next_state(s, e) == InputState::Hovering),
        notification(s, e) == Some(HoverNotification::Out(TextHoverOut)) <==> (e
            == PointerEvent::Out && s == InputState::Hovering && next_state(s, e)
            == InputState::Idle),
        next_state(s, e) == s ==> notification(s, e).is_none(),
{
}

} // verus!
