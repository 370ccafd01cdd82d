use vstd::prelude::*;
use crate::renderer::{step, Command, Lifecycle, RendererView, WindowEvent};

verus! {

/// The final state and the commands issued when `events` are delivered in
/// order, starting from `s`.
pub open spec fn run(s: RendererView, events: Seq<WindowEvent>) -> (RendererView, Seq<Command>)
    decreases events.len(),
{
    if events.len() == 0 {
        (s, Seq::empty())
    } else {
        let (t, c) = step(s, events[0]);
        let (u, cs) = run(t, events.drop_first());
        (u, seq![c] + cs)
    }
}

/// A resize with a zero width or a zero height changes nothing and asks for
/// nothing.
pub proof fn lemma_zero_resize_ignored(s: RendererView, width: u32, height: u32)
    requires
        width == 0 || height == 0,
    ensures
        step(s, WindowEvent::Resized { width, height }) == (s, Command::Nothing),
{
}

/// A resize of a running controller to a nonzero size stores exactly that
/// size, resizes the surface to it, and the next redraw asks for a frame of
/// that size.
pub proof fn lemma_resize_then_redraw(s: RendererView, width: u32, height: u32)
    requires
        s.lifecycle == Lifecycle::Running,
        width != 0,
        height != 0,
    ensures
        ({
            let (t, c) = step(s, WindowEvent::Resized { width, height });
            &&& t.width == width
            &&& t.height == height
            &&& t.lifecycle == Lifecycle::Running
            &&& c == Command::ResizeSurface { width, height }
            &&& step(t, WindowEvent::RedrawRequested) == (t, Command::Present { width, height })
        }),
{
}

/// Once the loop was told to exit, no event changes the state or asks for
/// anything.
pub proof fn lemma_terminated_is_inert(s: RendererView, events: Seq<WindowEvent>)
    requires
        s.lifecycle == Lifecycle::Terminated,
    ensures
        run(s, events).0 == s,
        run(s, events).1.len() == events.len(),
        forall|i: int| 0 <= i < events.len() ==> #[trigger] run(s, events).1[i] == Command::Nothing,
    decreases events.len(),
{
    if events.len() > 0 {
        lemma_terminated_is_inert(s, events.drop_first());
    }
}

/// A close request to a running controller tells the loop to exit, and
/// whatever events follow, it is never told so again and nothing else is
/// asked: no resize and no redraw is served after it.
pub proof fn lemma_close_exits_once(s: RendererView, later: Seq<WindowEvent>)
    requires
        s.lifecycle == Lifecycle::Running,
    ensures
        ({
            let (t, cs) = run(s, seq![WindowEvent::CloseRequested] + later);
            &&& t.lifecycle == Lifecycle::Terminated
            &&& cs.len() == later.len() + 1
            &&& cs[0] == Command::ExitLoop
            &&& forall|i: int| 1 <= i < cs.len() ==> #[trigger] cs[i] == Command::Nothing
        }),
{
    let events = seq![WindowEvent::CloseRequested] + later;
    assert(events.drop_first() =~= later);
    let t = step(s, WindowEvent::CloseRequested).0;
    lemma_terminated_is_inert(t, later);
}

} // verus!
