//! The decisions of a mounted component's event loop.
use vstd::prelude::*;
use crate::layout::WidgetEvent;

verus! {

/// One timer tick of a mounted component. `received` is the message taken
/// from the component's channel on this tick, if any; `handle` runs the
/// component's handler on it against the model. The component's view is
/// refreshed exactly when a message came and its handler asked for it: a
/// tick without a message neither runs the handler nor refreshes.
pub fn tick<E, F: FnOnce(E) -> bool>(received: Option<E>, handle: F) -> (refresh: bool)
    requires
        received matches Some(m) ==> call_requires(handle, (m,)),
    ensures
        match received {
            Some(m) => call_ensures(handle, (m,), refresh),
            None => !refresh,
        },
{
    match received {
        Some(msg) => handle(msg),
        None => false,
    }
}

/// Whether the main window hides itself on `event`: only when asked to
/// close.
pub fn hides_window(event: WidgetEvent) -> (hide: bool)
    ensures
        hide == (event == WidgetEvent::Close),
{
    event == WidgetEvent::Close
}

} // verus!
