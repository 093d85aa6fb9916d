//! The pointer state machine of the waveform canvas, and the index
//! arithmetic of the view transform.
use vstd::prelude::*;

verus! {

/// What the pointer is doing on the canvas. While resizing, the view keeps
/// the point where the drag was last seen.
#[derive(Debug, PartialEq, Eq, Clone, Copy, Structural)]
pub enum WDStates {
    Resizing,
    Selecting,
    Idle,
}

impl Default for WDStates {
    fn default() -> (r: Self)
        ensures
            r == WDStates::Idle,
    {
        WDStates::Idle
    }
}

#[derive(Debug, PartialEq, Eq, Clone, Copy, Structural)]
pub enum MouseButton {
    Left,
    Right,
    Other,
}

/// An event delivered to the canvas while the pointer is over it.
#[derive(Debug, PartialEq, Eq, Clone, Copy, Structural)]
pub enum PointerEvent {
    Moved,
    Pressed(MouseButton),
    Released(MouseButton),
    Wheel,
    /// Any other mouse event.
    OtherMouse,
    /// An event that does not come from the mouse.
    NotMouse,
}

/// The signal the canvas sends to its page. The view fills in the positions:
/// the pointer position relative to the centre of the canvas, except where
/// a field says otherwise.
#[derive(Debug, PartialEq, Eq, Clone, Copy, Structural)]
pub enum DrawerSignal {
    Scroll,
    ResizeBegin,
    /// The end of a resize drag, at the last point of the drag when
    /// `at_anchor` holds.
    ResizeOrEraseEnd { at_anchor: bool },
    /// A resize drag moved; the view scales by the movement since the last
    /// point of the drag, which becomes the pointer position.
    ResizeOrErase,
    SelectOrEditBegin,
    /// The end of a selection drag, at the centre of the canvas when
    /// `at_origin` holds.
    SelectOrEditEnd { at_origin: bool },
    SelectOrEdit,
    ForceRedraw,
}

/// The outcome of an event: the next state, whether the canvas takes the
/// event, and the signal to send, if any.
#[derive(Debug, PartialEq, Eq, Clone, Copy, Structural)]
pub struct DrawerStep {
    pub state: WDStates,
    pub captured: bool,
    pub signal: Option<DrawerSignal>,
}

/// The reaction of the canvas in `state` to an event, with the pointer over
/// the canvas when `inside` holds.
pub open spec fn spec_update(state: WDStates, inside: bool, event: PointerEvent) -> DrawerStep {
    if !inside {
        match state {
            WDStates::Resizing => DrawerStep {
                state: WDStates::Idle,
                captured: true,
                signal: Some(DrawerSignal::ResizeOrEraseEnd { at_anchor: true }),
            },
            WDStates::Selecting => DrawerStep {
                state: WDStates::Idle,
                captured: true,
                signal: Some(DrawerSignal::SelectOrEditEnd { at_origin: true }),
            },
            WDStates::Idle => DrawerStep { state: WDStates::Idle, captured: false, signal: None },
        }
    } else {
        match event {
            PointerEvent::Moved => DrawerStep {
                state,
                captured: true,
                signal: Some(
                    match state {
                        WDStates::Resizing => DrawerSignal::ResizeOrErase,
                        WDStates::Selecting => DrawerSignal::SelectOrEdit,
                        WDStates::Idle => DrawerSignal::ForceRedraw,
                    },
                ),
            },
            PointerEvent::Pressed(b) => if state == WDStates::Idle && b == MouseButton::Right {
                DrawerStep { state: WDStates::Resizing, captured: true, signal: Some(DrawerSignal::ResizeBegin) }
            } else if state == WDStates::Idle && b == MouseButton::Left {
                DrawerStep {
                    state: WDStates::Selecting,
                    captured: true,
                    signal: Some(DrawerSignal::SelectOrEditBegin),
                }
            } else {
                DrawerStep { state, captured: true, signal: None }
            },
            PointerEvent::Released(b) => if state == WDStates::Resizing && b == MouseButton::Right {
                DrawerStep {
                    state: WDStates::Idle,
                    captured: true,
                    signal: Some(DrawerSignal::ResizeOrEraseEnd { at_anchor: false }),
                }
            } else if state == WDStates::Selecting && b == MouseButton::Left {
                DrawerStep {
                    state: WDStates::Idle,
                    captured: true,
                    signal: Some(DrawerSignal::SelectOrEditEnd { at_origin: false }),
                }
            } else {
                DrawerStep { state, captured: true, signal: None }
            },
            PointerEvent::Wheel => DrawerStep {
                state,
                captured: true,
                signal: if state == WDStates::Resizing { None } else { Some(DrawerSignal::Scroll) },
            },
            PointerEvent::OtherMouse => DrawerStep { state, captured: true, signal: None },
            PointerEvent::NotMouse => DrawerStep { state, captured: false, signal: None },
        }
    }
}

/// Reacts to an event on the canvas: the right button drags a resize, the
/// left button drags a selection, the wheel scrolls unless a resize is under
/// way, and leaving the canvas ends any drag.
pub fn update(state: WDStates, inside: bool, event: PointerEvent) -> (r: DrawerStep)
    ensures
        r == spec_update(state, inside, event),
{
    if !inside {
        return match state {
            WDStates::Resizing => DrawerStep {
                state: WDStates::Idle,
                captured: true,
                signal: Some(DrawerSignal::ResizeOrEraseEnd { at_anchor: true }),
            },
            WDStates::Selecting => DrawerStep {
                state: WDStates::Idle,
                captured: true,
                signal: Some(DrawerSignal::SelectOrEditEnd { at_origin: true }),
            },
            WDStates::Idle => DrawerStep { state: WDStates::Idle, captured: false, signal: None },
        };
    }
    match event {
        PointerEvent::Moved => {
            let signal = match state {
                WDStates::Resizing => DrawerSignal::ResizeOrErase,
                WDStates::Selecting => DrawerSignal::SelectOrEdit,
                WDStates::Idle => DrawerSignal::ForceRedraw,
            };
            DrawerStep { state, captured: true, signal: Some(signal) }
        },
        PointerEvent::Pressed(b) => match state {
            WDStates::Idle => match b {
                MouseButton::Right => DrawerStep {
                    state: WDStates::Resizing,
                    captured: true,
                    signal: Some(DrawerSignal::ResizeBegin),
                },
                MouseButton::Left => DrawerStep {
                    state: WDStates::Selecting,
                    captured: true,
                    signal: Some(DrawerSignal::SelectOrEditBegin),
                },
                MouseButton::Other => DrawerStep { state, captured: true, signal: None },
            },
            _ => DrawerStep { state, captured: true, signal: None },
        },
        PointerEvent::Released(b) => match state {
            WDStates::Resizing => match b {
                MouseButton::Right => DrawerStep {
                    state: WDStates::Idle,
                    captured: true,
                    signal: Some(DrawerSignal::ResizeOrEraseEnd { at_anchor: false }),
                },
                _ => DrawerStep { state, captured: true, signal: None },
            },
            WDStates::Selecting => match b {
                MouseButton::Left => DrawerStep {
                    state: WDStates::Idle,
                    captured: true,
                    signal: Some(DrawerSignal::SelectOrEditEnd { at_origin: false }),
                },
                _ => DrawerStep { state, captured: true, signal: None },
            },
            WDStates::Idle => DrawerStep { state, captured: true, signal: None },
        },
        PointerEvent::Wheel => match state {
            WDStates::Resizing => DrawerStep { state, captured: true, signal: None },
            _ => DrawerStep { state, captured: true, signal: Some(DrawerSignal::Scroll) },
        },
        PointerEvent::OtherMouse => DrawerStep { state, captured: true, signal: None },
        PointerEvent::NotMouse => DrawerStep { state, captured: false, signal: None },
    }
}

/// Law: leaving the canvas always brings it back to rest, and the canvas
/// takes that event exactly when it ends a drag.
pub proof fn law_leaving_ends_drag(state: WDStates, event: PointerEvent)
    ensures
        spec_update(state, false, event).state == WDStates::Idle,
        spec_update(state, false, event).captured <==> state != WDStates::Idle,
{
}

/// Law: the signals of a drag are bracketed. A drag starts only from rest
/// and with its begin signal; moves report only while that drag is under
/// way; an end signal comes only from that drag and brings the canvas back
/// to rest.
pub proof fn law_drag_signals_bracketed(state: WDStates, inside: bool, event: PointerEvent)
    ensures
        ({
            let r = spec_update(state, inside, event);
            &&& r.state == WDStates::Resizing && state != WDStates::Resizing ==> state
                == WDStates::Idle && r.signal == Some(DrawerSignal::ResizeBegin)
            &&& r.state == WDStates::Selecting && state != WDStates::Selecting ==> state
                == WDStates::Idle && r.signal == Some(DrawerSignal::SelectOrEditBegin)
            &&& r.signal == Some(DrawerSignal::ResizeOrErase) ==> state == WDStates::Resizing
                && r.state == WDStates::Resizing
            &&& r.signal == Some(DrawerSignal::SelectOrEdit) ==> state == WDStates::Selecting
                && r.state == WDStates::Selecting
            &&& (r.signal matches Some(DrawerSignal::ResizeOrEraseEnd { .. })) ==> state
                == WDStates::Resizing && r.state == WDStates::Idle
            &&& (r.signal matches Some(DrawerSignal::SelectOrEditEnd { .. })) ==> state
                == WDStates::Selecting && r.state == WDStates::Idle
        }),
{
}

/// Law: a move of the pointer over the canvas reports the drag under way
/// and keeps it: a move during a right-button drag zooms (or erases), a move
/// during a left-button drag selects (or draws), and a move at rest only
/// asks for a redraw.
pub proof fn law_moves_report_the_drag(state: WDStates)
    ensures
        spec_update(state, true, PointerEvent::Moved).state == state,
        spec_update(state, true, PointerEvent::Moved).captured,
        state == WDStates::Resizing ==> spec_update(state, true, PointerEvent::Moved).signal == Some(
            DrawerSignal::ResizeOrErase,
        ),
        state == WDStates::Selecting ==> spec_update(state, true, PointerEvent::Moved).signal == Some(
            DrawerSignal::SelectOrEdit,
        ),
        state == WDStates::Idle ==> spec_update(state, true, PointerEvent::Moved).signal == Some(
            DrawerSignal::ForceRedraw,
        ),
{
}

/// Law: a whole drag with button `b` over the canvas, from rest, is
/// bracketed by its own signals: with the right button, pressing begins a
/// resize, moving resizes (or erases) and releasing ends it; with the left
/// button, pressing begins a selection, moving selects (or draws) and
/// releasing ends it; either way the canvas is at rest again afterwards, and
/// releasing the other button on the way changes nothing. Any other button
/// starts no drag. The wheel scrolls except during a resize.
pub proof fn law_button_drags(b: MouseButton)
    ensures
        ({
            let d1 = spec_update(WDStates::Idle, true, PointerEvent::Pressed(b));
            let d2 = spec_update(d1.state, true, PointerEvent::Moved);
            let other = if b == MouseButton::Left { MouseButton::Right } else { MouseButton::Left };
            let d2b = spec_update(d2.state, true, PointerEvent::Released(other));
            let d3 = spec_update(d2b.state, true, PointerEvent::Released(b));
            &&& b == MouseButton::Right ==> {
                &&& d1.signal == Some(DrawerSignal::ResizeBegin)
                &&& d2.signal == Some(DrawerSignal::ResizeOrErase)
                &&& d2b.signal is None && d2b.state == WDStates::Resizing
                &&& d3.signal == Some(DrawerSignal::ResizeOrEraseEnd { at_anchor: false })
                &&& d3.state == WDStates::Idle
                &&& spec_update(d2.state, true, PointerEvent::Wheel).signal is None
            }
            &&& b == MouseButton::Left ==> {
                &&& d1.signal == Some(DrawerSignal::SelectOrEditBegin)
                &&& d2.signal == Some(DrawerSignal::SelectOrEdit)
                &&& d2b.signal is None && d2b.state == WDStates::Selecting
                &&& d3.signal == Some(DrawerSignal::SelectOrEditEnd { at_origin: false })
                &&& d3.state == WDStates::Idle
                &&& spec_update(d2.state, true, PointerEvent::Wheel).signal == Some(DrawerSignal::Scroll)
            }
            &&& b == MouseButton::Other ==> d1.state == WDStates::Idle && d1.signal is None
        }),
        spec_update(WDStates::Idle, true, PointerEvent::Wheel).signal == Some(DrawerSignal::Scroll),
{
}

/// The middle of the view after stepping `step + 1` samples back (when
/// `back` holds) or forth from `middle`, kept within `0 ..= max`.
pub open spec fn spec_scroll_index(middle: int, step: int, back: bool, max: int) -> int {
    if back {
        if middle - (1 + step) < 0 { 0 } else { middle - (1 + step) }
    } else {
        let up = if middle + 1 + step > usize::MAX { usize::MAX as int } else { middle + 1 + step };
        if up < max { up } else { max }
    }
}

/// The sample at the middle of the view after a scroll of `step + 1`
/// samples; scrolling forth stops at `max`.
pub fn scroll_index(middle: usize, step: usize, back: bool, max: usize) -> (r: usize)
    requires
        step < usize::MAX,
    ensures
        r == spec_scroll_index(middle as int, step as int, back, max as int),
{
    if back {
        middle.saturating_sub(1 + step)
    } else {
        let up = middle.saturating_add(1 + step);
        if up < max { up } else { max }
    }
}

/// The sample at the middle of `selection`, rounding towards its start.
pub fn allign_middle(selection: (usize, usize)) -> (r: usize)
    ensures
        r == if selection.0 <= selection.1 {
            selection.0 + (selection.1 - selection.0) / 2
        } else {
            selection.1 + (selection.0 - selection.1) / 2
        },
{
    let hi = if selection.0 > selection.1 { selection.0 } else { selection.1 };
    let lo = if selection.0 < selection.1 { selection.0 } else { selection.1 };
    let delt = hi - lo;
    lo + delt / 2
}


/// The amplitude for a scaled pointer height: the height itself when it
/// fits in a sample, otherwise the largest sample of the pointer's sign.
pub fn clamp_amp(scaled: i64, above: bool) -> (r: i16)
    ensures
        r == if i16::MIN <= scaled <= i16::MAX {
            scaled as int
        } else if above {
            i16::MAX as int
        } else {
            i16::MIN as int
        },
{
    if i16::MIN as i64 <= scaled && scaled <= i16::MAX as i64 {
        scaled as i16
    } else if above {
        i16::MAX
    } else {
        i16::MIN
    }
}

/// The signed distance of sample `pos` from the sample `middle` at the
/// centre of the view, when it fits in an `i64`.
pub fn view_offset(pos: usize, middle: usize) -> (r: Option<i64>)
    requires
        pos > i64::MAX || middle > i64::MAX ==> middle <= pos,
    ensures
        r == if i64::MIN <= pos - middle <= i64::MAX {
            Some((pos - middle) as i64)
        } else {
            None::<i64>
        },
{
    let d: i128 = pos as i128 - middle as i128;
    if i64::MIN as i128 <= d && d <= i64::MAX as i128 {
        Some(d as i64)
    } else {
        None
    }
}

/// The samples `from`, `from + step`, `from + 2 * step`, ... that lie below
/// `to`: with `step` the samples of one second, where the view draws its
/// time marks.
pub fn stepped_positions(from: usize, to: usize, step: usize) -> (r: Vec<usize>)
    requires
        step > 0,
    ensures
        forall|k: int| 0 <= k < r@.len() ==> #[trigger] r@[k] == from + k * step && r@[k] < to,
        from + r@.len() * step >= to,
{
    let mut out: Vec<usize> = Vec::new();
    if from >= to {
        return out;
    }
    let mut p: usize = from;
    assert(from + out@.len() * step == from) by (nonlinear_arith)
        requires
            out@.len() == 0,
    ;
    loop
        invariant
            step > 0,
            from <= p < to,
            p == from + out@.len() * step,
            forall|k: int| 0 <= k < out@.len() ==> #[trigger] out@[k] == from + k * step && out@[k] < to,
        ensures
            forall|k: int| 0 <= k < out@.len() ==> #[trigger] out@[k] == from + k * step && out@[k] < to,
            from + out@.len() * step >= to,
        decreases to - p,
    {
        let ghost n = out@.len();
        out.push(p);
        assert(from + (n + 1) * step == from + n * step + step) by (nonlinear_arith);
        if to - p <= step {
            return out;
        }
        p = p + step;
    }
}

} // verus!
